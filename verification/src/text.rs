//! Character-level text handling shared by the callsign, airport and
//! airline logic: Unicode whitespace, ASCII case, trimming, splitting into
//! fields and joining them back, all specified over `Seq<char>`.

use vstd::prelude::*;

verus! {

// ---------------------------------------------------------------------
// Characters
// ---------------------------------------------------------------------

/// The Unicode `White_Space` property, which is what `char::is_whitespace`
/// (and therefore `str::trim` and `str::split_whitespace`) tests.
pub open spec fn is_space(c: char) -> bool {
    let u = c as u32;
    ||| 0x9 <= u && u <= 0xD
    ||| u == 0x20
    ||| u == 0x85
    ||| u == 0xA0
    ||| u == 0x1680
    ||| 0x2000 <= u && u <= 0x200A
    ||| u == 0x2028
    ||| u == 0x2029
    ||| u == 0x202F
    ||| u == 0x205F
    ||| u == 0x3000
}

/// Whether `c` is whitespace in the Unicode sense.
pub fn char_is_whitespace(c: char) -> (r: bool)
    ensures
        r == is_space(c),
{
    let u = c as u32;
    (0x9 <= u && u <= 0xD) || u == 0x20 || u == 0x85 || u == 0xA0 || u == 0x1680 || (0x2000 <= u
        && u <= 0x200A) || u == 0x2028 || u == 0x2029 || u == 0x202F || u == 0x205F || u == 0x3000
}

pub open spec fn is_ascii_lowercase(c: char) -> bool {
    'a' <= c && c <= 'z'
}

pub open spec fn is_ascii_uppercase(c: char) -> bool {
    'A' <= c && c <= 'Z'
}

pub open spec fn is_ascii_letter(c: char) -> bool {
    is_ascii_lowercase(c) || is_ascii_uppercase(c)
}

/// `char::to_ascii_uppercase`: ASCII lowercase letters move up by 32,
/// every other character is left alone.
pub open spec fn ascii_upper(c: char) -> char {
    if is_ascii_lowercase(c) {
        ((c as u32) - 32) as char
    } else {
        c
    }
}

pub open spec fn ascii_upper_seq(s: Seq<char>) -> Seq<char> {
    s.map_values(|c: char| ascii_upper(c))
}

pub fn char_is_ascii_letter(c: char) -> (r: bool)
    ensures
        r == is_ascii_letter(c),
{
    ('a' <= c && c <= 'z') || ('A' <= c && c <= 'Z')
}

pub fn char_to_ascii_upper(c: char) -> (r: char)
    ensures
        r == ascii_upper(c),
{
    if 'a' <= c && c <= 'z' {
        let u: u32 = c as u32 - 32;
        let b: u8 = u as u8;
        b as char
    } else {
        c
    }
}

/// Upper-cases the ASCII letters of a character sequence.
pub fn chars_to_ascii_upper(v: &Vec<char>) -> (r: Vec<char>)
    ensures
        r@ == ascii_upper_seq(v@),
{
    let mut r: Vec<char> = Vec::new();
    let n = v.len();
    for i in 0..n
        invariant
            n == v@.len(),
            r@ == ascii_upper_seq(v@.take(i as int)),
    {
        r.push(char_to_ascii_upper(v[i]));
        assert(ascii_upper_seq(v@.take(i + 1)) =~= ascii_upper_seq(v@.take(i as int)).push(
            ascii_upper(v@[i as int]),
        ));
    }
    assert(v@.take(n as int) =~= v@);
    r
}

// ---------------------------------------------------------------------
// Conversions between `&str`, `String` and `Vec<char>`
// ---------------------------------------------------------------------

/// `String::push` (std): appends one character to the string, as its
/// documentation states; the contract claims exactly that.
#[verifier::external_body]
fn string_push(s: &mut String, c: char)
    ensures
        final(s)@ == old(s)@.push(c),
{
    s.push(c);
}

/// The characters of a string slice.
pub fn chars_of(s: &str) -> (v: Vec<char>)
    ensures
        v@ == s@,
{
    let mut v: Vec<char> = Vec::new();
    for c in it: s.chars()
        invariant
            v@ == it.seq().take(it.index() as int),
    {
        v.push(c);
    }
    v
}

/// A string made of the given characters.
pub fn string_of(v: &Vec<char>) -> (s: String)
    ensures
        s@ == v@,
{
    let mut s = String::new();
    let n = v.len();
    for i in 0..n
        invariant
            n == v@.len(),
            s@ == v@.take(i as int),
    {
        string_push(&mut s, v[i]);
        assert(v@.take(i + 1) =~= v@.take(i as int).push(v@[i as int]));
    }
    assert(v@.take(n as int) =~= v@);
    s
}

/// Appends `src` to `dst`.
pub fn extend_chars(dst: &mut Vec<char>, src: &Vec<char>)
    ensures
        final(dst)@ == old(dst)@ + src@,
{
    let n = src.len();
    for i in 0..n
        invariant
            n == src@.len(),
            dst@ == old(dst)@ + src@.take(i as int),
    {
        dst.push(src[i]);
        assert(src@.take(i + 1) =~= src@.take(i as int).push(src@[i as int]));
    }
    assert(src@.take(n as int) =~= src@);
}

/// Appends the characters of a string slice to `dst`.
pub fn extend_str(dst: &mut Vec<char>, src: &str)
    ensures
        final(dst)@ == old(dst)@ + src@,
{
    let v = chars_of(src);
    extend_chars(dst, &v);
}

/// The first `k` characters.
pub fn take_chars(v: &Vec<char>, k: usize) -> (r: Vec<char>)
    requires
        k <= v@.len(),
    ensures
        r@ == v@.take(k as int),
{
    let mut r: Vec<char> = Vec::new();
    for i in 0..k
        invariant
            k <= v@.len(),
            r@ == v@.take(i as int),
    {
        r.push(v[i]);
        assert(v@.take(i + 1) =~= v@.take(i as int).push(v@[i as int]));
    }
    r
}

/// The characters from index `lo` (inclusive) to `hi` (exclusive).
pub fn slice_chars(v: &Vec<char>, lo: usize, hi: usize) -> (r: Vec<char>)
    requires
        lo <= hi <= v@.len(),
    ensures
        r@ == v@.subrange(lo as int, hi as int),
{
    let mut r: Vec<char> = Vec::new();
    for i in lo..hi
        invariant
            lo <= hi <= v@.len(),
            r@ == v@.subrange(lo as int, i as int),
    {
        r.push(v[i]);
        assert(v@.subrange(lo as int, i + 1) =~= v@.subrange(lo as int, i as int).push(
            v@[i as int],
        ));
    }
    r
}

/// Whether two character sequences are equal.
pub fn chars_eq(a: &Vec<char>, b: &Vec<char>) -> (r: bool)
    ensures
        r == (a@ == b@),
{
    if a.len() != b.len() {
        return false;
    }
    let n = a.len();
    for i in 0..n
        invariant
            n == a@.len(),
            n == b@.len(),
            forall|j: int| 0 <= j < i ==> a@[j] == b@[j],
    {
        if a[i] != b[i] {
            return false;
        }
    }
    assert(a@ =~= b@);
    true
}

/// Whether two string slices are equal.
pub fn str_eq(a: &str, b: &str) -> (r: bool)
    ensures
        r == (a@ == b@),
{
    let va = chars_of(a);
    let vb = chars_of(b);
    chars_eq(&va, &vb)
}

// ---------------------------------------------------------------------
// Trimming
// ---------------------------------------------------------------------

/// `str::trim_start`: drop leading whitespace.
pub open spec fn trim_start(s: Seq<char>) -> Seq<char>
    decreases s.len(),
{
    if s.len() > 0 && is_space(s[0]) {
        trim_start(s.drop_first())
    } else {
        s
    }
}

/// `str::trim_end`: drop trailing whitespace.
pub open spec fn trim_end(s: Seq<char>) -> Seq<char>
    decreases s.len(),
{
    if s.len() > 0 && is_space(s.last()) {
        trim_end(s.drop_last())
    } else {
        s
    }
}

/// `str::trim`: drop leading and trailing whitespace.
pub open spec fn trim(s: Seq<char>) -> Seq<char> {
    trim_end(trim_start(s))
}

proof fn lemma_trim_start_at(s: Seq<char>, i: int)
    requires
        0 <= i <= s.len(),
        forall|j: int| 0 <= j < i ==> is_space(#[trigger] s[j]),
        i == s.len() || !is_space(s[i]),
    ensures
        trim_start(s) == s.skip(i),
    decreases i,
{
    if i == 0 {
        assert(s.skip(0) =~= s);
    } else {
        let t = s.drop_first();
        assert forall|j: int| 0 <= j < i - 1 implies is_space(#[trigger] t[j]) by {
            assert(t[j] == s[j + 1]);
        }
        if i < s.len() {
            assert(t[i - 1] == s[i]);
        }
        lemma_trim_start_at(t, i - 1);
        assert(t.skip(i - 1) =~= s.skip(i));
    }
}

proof fn lemma_trim_end_at(s: Seq<char>, j: int)
    requires
        0 <= j <= s.len(),
        forall|k: int| j <= k < s.len() ==> is_space(#[trigger] s[k]),
        j == 0 || !is_space(s[j - 1]),
    ensures
        trim_end(s) == s.take(j),
    decreases s.len() - j,
{
    if j == s.len() {
        assert(s.take(j) =~= s);
    } else {
        let t = s.drop_last();
        assert forall|k: int| j <= k < t.len() implies is_space(#[trigger] t[k]) by {
            assert(t[k] == s[k]);
        }
        if j > 0 {
            assert(t[j - 1] == s[j - 1]);
        }
        lemma_trim_end_at(t, j);
        assert(t.take(j) =~= s.take(j));
    }
}

/// The index of the first non-whitespace character (or the length).
fn first_non_space(v: &Vec<char>) -> (i: usize)
    ensures
        i <= v@.len(),
        forall|j: int| 0 <= j < i ==> is_space(#[trigger] v@[j]),
        i == v@.len() || !is_space(v@[i as int]),
        trim_start(v@) == v@.skip(i as int),
{
    let mut i: usize = 0;
    while i < v.len()
        invariant
            i <= v@.len(),
            forall|j: int| 0 <= j < i ==> is_space(#[trigger] v@[j]),
        ensures
            i <= v@.len(),
            forall|j: int| 0 <= j < i ==> is_space(#[trigger] v@[j]),
            i == v@.len() || !is_space(v@[i as int]),
        decreases v@.len() - i,
    {
        if !char_is_whitespace(v[i]) {
            break;
        }
        i = i + 1;
    }
    proof {
        lemma_trim_start_at(v@, i as int);
    }
    i
}

/// One past the index of the last non-whitespace character at or after
/// `lo` (or `lo` itself when there is none).
fn end_non_space(v: &Vec<char>, lo: usize) -> (j: usize)
    requires
        lo <= v@.len(),
    ensures
        lo <= j <= v@.len(),
        forall|k: int| j <= k < v@.len() ==> is_space(#[trigger] v@[k]),
        j == lo || !is_space(v@[j - 1]),
{
    let mut j: usize = v.len();
    while j > lo
        invariant
            lo <= j <= v@.len(),
            forall|k: int| j <= k < v@.len() ==> is_space(#[trigger] v@[k]),
        ensures
            lo <= j <= v@.len(),
            forall|k: int| j <= k < v@.len() ==> is_space(#[trigger] v@[k]),
            j == lo || !is_space(v@[j - 1]),
        decreases j,
    {
        if !char_is_whitespace(v[j - 1]) {
            break;
        }
        j = j - 1;
    }
    j
}

/// The characters without trailing whitespace.
pub fn trim_end_chars(v: &Vec<char>) -> (r: Vec<char>)
    ensures
        r@ == trim_end(v@),
{
    let j = end_non_space(v, 0);
    proof {
        lemma_trim_end_at(v@, j as int);
    }
    take_chars(v, j)
}

/// The characters without leading and trailing whitespace.
pub fn trim_chars(v: &Vec<char>) -> (r: Vec<char>)
    ensures
        r@ == trim(v@),
{
    let i = first_non_space(v);
    let j = end_non_space(v, i);
    proof {
        let t = v@.skip(i as int);
        assert forall|k: int| j - i <= k < t.len() implies is_space(#[trigger] t[k]) by {
            assert(t[k] == v@[k + i]);
        }
        if j > i {
            assert(t[j - i - 1] == v@[j - 1]);
        }
        lemma_trim_end_at(t, j - i);
        assert(t.take(j - i) =~= v@.subrange(i as int, j as int));
    }
    slice_chars(v, i, j)
}

// ---------------------------------------------------------------------
// Fields and joining
// ---------------------------------------------------------------------

/// What separates the fields of a string.
#[derive(Clone, Copy, Debug, PartialEq, Eq)]
pub enum Delimiter {
    /// Runs of Unicode whitespace, as `str::split_whitespace`.
    Whitespace,
    /// The `-` character, as `str::split('-')` with empty pieces dropped.
    Dash,
}

impl Delimiter {
    pub open spec fn separates(self, c: char) -> bool {
        match self {
            Delimiter::Whitespace => is_space(c),
            Delimiter::Dash => c == '-',
        }
    }

    fn is_separator(&self, c: char) -> (r: bool)
        ensures
            r == self.separates(c),
    {
        match self {
            Delimiter::Whitespace => char_is_whitespace(c),
            Delimiter::Dash => c == '-',
        }
    }
}

/// Scanning `s` left to right: the fields completed so far, and the field
/// being read when the scan stops.
pub open spec fn field_scan(s: Seq<char>, d: Delimiter) -> (Seq<Seq<char>>, Seq<char>)
    decreases s.len(),
{
    if s.len() == 0 {
        (Seq::empty(), Seq::empty())
    } else {
        let (done, cur) = field_scan(s.drop_last(), d);
        let c = s.last();
        if d.separates(c) {
            if cur.len() > 0 {
                (done.push(cur), Seq::empty())
            } else {
                (done, cur)
            }
        } else {
            (done, cur.push(c))
        }
    }
}

/// The fields of `s`: its maximal non-empty runs of non-separator
/// characters, in order.
pub open spec fn fields(s: Seq<char>, d: Delimiter) -> Seq<Seq<char>> {
    let (done, cur) = field_scan(s, d);
    if cur.len() > 0 {
        done.push(cur)
    } else {
        done
    }
}

/// The words of `s`, as `str::split_whitespace` yields them.
pub open spec fn words(s: Seq<char>) -> Seq<Seq<char>> {
    fields(s, Delimiter::Whitespace)
}

/// The sequences `ws` with `sep` between consecutive ones.
pub open spec fn join(ws: Seq<Seq<char>>, sep: Seq<char>) -> Seq<char>
    decreases ws.len(),
{
    if ws.len() == 0 {
        Seq::empty()
    } else if ws.len() == 1 {
        ws[0]
    } else {
        join(ws.drop_last(), sep) + sep + ws.last()
    }
}

/// The words of `s` separated by single spaces
/// (`s.split_whitespace().collect::<Vec<_>>().join(" ")`).
pub open spec fn collapse(s: Seq<char>) -> Seq<char> {
    join(words(s), seq![' '])
}

pub open spec fn views(v: Seq<Vec<char>>) -> Seq<Seq<char>> {
    v.map_values(|x: Vec<char>| x@)
}

proof fn lemma_field_scan_parts(s: Seq<char>, d: Delimiter)
    ensures
        forall|i: int|
            0 <= i < field_scan(s, d).0.len() ==> #[trigger] field_scan(s, d).0[i].len() > 0,
        forall|i: int, j: int|
            0 <= i < field_scan(s, d).0.len() && 0 <= j < field_scan(s, d).0[i].len()
                ==> !d.separates(#[trigger] field_scan(s, d).0[i][j]),
        forall|j: int|
            0 <= j < field_scan(s, d).1.len() ==> !d.separates(#[trigger] field_scan(s, d).1[j]),
    decreases s.len(),
{
    if s.len() > 0 {
        let p = s.drop_last();
        lemma_field_scan_parts(p, d);
        let (done, cur) = field_scan(p, d);
        let c = s.last();
        let (done2, cur2) = field_scan(s, d);
        if d.separates(c) {
            if cur.len() > 0 {
                assert(done2 == done.push(cur));
                assert forall|i: int| 0 <= i < done2.len() implies #[trigger] done2[i].len() > 0 by {
                    if i < done.len() {
                        assert(done2[i] == done[i]);
                    }
                }
                assert forall|i: int, j: int|
                    0 <= i < done2.len() && 0 <= j < done2[i].len() implies !d.separates(
                        #[trigger] done2[i][j],
                    ) by {
                    if i < done.len() {
                        assert(done2[i] == done[i]);
                    } else {
                        assert(done2[i] == cur);
                    }
                }
            }
        } else {
            assert(cur2 == cur.push(c));
            assert forall|j: int| 0 <= j < cur2.len() implies !d.separates(#[trigger] cur2[j]) by {
                if j < cur.len() {
                    assert(cur2[j] == cur[j]);
                }
            }
        }
    }
}

/// Every field is non-empty and holds no separator.
pub proof fn lemma_fields_parts(s: Seq<char>, d: Delimiter)
    ensures
        forall|i: int| 0 <= i < fields(s, d).len() ==> #[trigger] fields(s, d)[i].len() > 0,
        forall|i: int, j: int|
            0 <= i < fields(s, d).len() && 0 <= j < fields(s, d)[i].len() ==> !d.separates(
                #[trigger] fields(s, d)[i][j],
            ),
{
    lemma_field_scan_parts(s, d);
    let (done, cur) = field_scan(s, d);
    let f = fields(s, d);
    if cur.len() > 0 {
        assert forall|i: int| 0 <= i < f.len() implies #[trigger] f[i].len() > 0 by {
            if i < done.len() {
                assert(f[i] == done[i]);
            }
        }
        assert forall|i: int, j: int|
            0 <= i < f.len() && 0 <= j < f[i].len() implies !d.separates(#[trigger] f[i][j]) by {
            if i < done.len() {
                assert(f[i] == done[i]);
            } else {
                assert(f[i] == cur);
            }
        }
    }
}

/// The characters of `s` that are not separators, in order.
pub open spec fn drop_separators(s: Seq<char>, d: Delimiter) -> Seq<char> {
    s.filter(|c: char| !d.separates(c))
}

proof fn lemma_field_scan_covers(s: Seq<char>, d: Delimiter)
    ensures
        field_scan(s, d).0.flatten_alt() + field_scan(s, d).1 == drop_separators(s, d),
    decreases s.len(),
{
    reveal(Seq::filter);
    if s.len() == 0 {
        assert(field_scan(s, d).0.flatten_alt() + field_scan(s, d).1 =~= drop_separators(s, d));
    } else {
        let p = s.drop_last();
        lemma_field_scan_covers(p, d);
        let (done, cur) = field_scan(p, d);
        let c = s.last();
        let (done2, cur2) = field_scan(s, d);
        assert(drop_separators(s, d) == if d.separates(c) {
            drop_separators(p, d)
        } else {
            drop_separators(p, d).push(c)
        });
        if d.separates(c) {
            if cur.len() > 0 {
                assert(done2.drop_last() =~= done);
                assert(done2.last() == cur);
                assert(done2.flatten_alt() == done.flatten_alt() + cur);
                assert(done2.flatten_alt() + cur2 =~= done.flatten_alt() + cur);
            } else {
                assert(done.flatten_alt() + cur2 =~= done.flatten_alt() + cur);
            }
        } else {
            assert(done2.flatten_alt() + cur2 =~= (done.flatten_alt() + cur).push(c));
        }
    }
}

/// The fields cover the input: laid end to end they give back every
/// character of `s` that is not a separator, in order.
pub proof fn lemma_fields_cover(s: Seq<char>, d: Delimiter)
    ensures
        fields(s, d).flatten() == drop_separators(s, d),
{
    lemma_field_scan_covers(s, d);
    let (done, cur) = field_scan(s, d);
    let f = fields(s, d);
    f.lemma_flatten_and_flatten_alt_are_equivalent();
    if cur.len() > 0 {
        assert(f.drop_last() =~= done);
        assert(f.last() == cur);
    } else {
        assert(done.flatten_alt() + cur =~= done.flatten_alt());
    }
}

/// Splits a character sequence into its fields.
pub fn split_fields(v: &Vec<char>, d: Delimiter) -> (r: Vec<Vec<char>>)
    ensures
        views(r@) == fields(v@, d),
{
    let mut done: Vec<Vec<char>> = Vec::new();
    let mut cur: Vec<char> = Vec::new();
    let n = v.len();
    for i in 0..n
        invariant
            n == v@.len(),
            (views(done@), cur@) == field_scan(v@.take(i as int), d),
    {
        let c = v[i];
        proof {
            assert(v@.take(i + 1).drop_last() =~= v@.take(i as int));
            assert(v@.take(i + 1).last() == c);
        }
        if d.is_separator(c) {
            if cur.len() > 0 {
                let finished = cur;
                cur = Vec::new();
                let ghost before = done@;
                done.push(finished);
                assert(views(done@) =~= views(before).push(finished@));
            }
        } else {
            cur.push(c);
        }
    }
    assert(v@.take(n as int) =~= v@);
    if cur.len() > 0 {
        let ghost before = done@;
        done.push(cur);
        assert(views(done@) =~= views(before).push(field_scan(v@, d).1));
    }
    done
}

/// Joins the first `k` of the given sequences with `sep` between them.
pub fn join_chars(ws: &Vec<Vec<char>>, k: usize, sep: &Vec<char>) -> (r: Vec<char>)
    requires
        k <= ws@.len(),
    ensures
        r@ == join(views(ws@).take(k as int), sep@),
{
    let mut r: Vec<char> = Vec::new();
    for i in 0..k
        invariant
            k <= ws@.len(),
            r@ == join(views(ws@).take(i as int), sep@),
    {
        proof {
            let t = views(ws@).take(i + 1);
            assert(t.drop_last() =~= views(ws@).take(i as int));
            assert(t.last() == ws@[i as int]@);
            if i == 0 {
                assert(views(ws@).take(0) =~= Seq::<Seq<char>>::empty());
            }
        }
        if i > 0 {
            extend_chars(&mut r, sep);
        }
        extend_chars(&mut r, &ws[i]);
        proof {
            if i == 0 {
                assert(r@ =~= ws@[0]@);
            }
        }
    }
    r
}

/// The words of `v` separated by single spaces.
pub fn collapse_chars(v: &Vec<char>) -> (r: Vec<char>)
    ensures
        r@ == collapse(v@),
{
    let ws = split_fields(v, Delimiter::Whitespace);
    let sep = vec![' '];
    assert(sep@ =~= seq![' ']);
    let r = join_chars(&ws, ws.len(), &sep);
    assert(views(ws@).take(ws@.len() as int) =~= views(ws@));
    r
}

/// Whitespace in `s` is a plain space that neither starts `s` nor follows
/// another whitespace character (a trailing space is allowed).
pub open spec fn spaced_prefix(s: Seq<char>) -> bool {
    forall|i: int|
        0 <= i < s.len() && is_space(#[trigger] s[i]) ==> s[i] == ' ' && i > 0 && !is_space(
            s[i - 1],
        )
}

/// Words separated by single spaces, with nothing around them.
pub open spec fn single_spaced(s: Seq<char>) -> bool {
    spaced_prefix(s) && (s.len() == 0 || !is_space(s.last()))
}

proof fn lemma_scan_of_spaced_prefix(s: Seq<char>)
    requires
        spaced_prefix(s),
    ensures
        s.len() == 0 ==> field_scan(s, Delimiter::Whitespace).0.len() == 0 && field_scan(
            s,
            Delimiter::Whitespace,
        ).1.len() == 0,
        s.len() > 0 && is_space(s.last()) ==> field_scan(s, Delimiter::Whitespace).1.len() == 0
            && field_scan(s, Delimiter::Whitespace).0.len() > 0 && join(
            field_scan(s, Delimiter::Whitespace).0,
            seq![' '],
        ) + seq![' '] == s,
        s.len() > 0 && !is_space(s.last()) ==> field_scan(s, Delimiter::Whitespace).1.len() > 0
            && join(
            field_scan(s, Delimiter::Whitespace).0.push(field_scan(s, Delimiter::Whitespace).1),
            seq![' '],
        ) == s,
    decreases s.len(),
{
    if s.len() > 0 {
        let p = s.drop_last();
        assert forall|i: int| 0 <= i < p.len() && is_space(#[trigger] p[i]) implies p[i] == ' '
            && i > 0 && !is_space(p[i - 1]) by {
            assert(p[i] == s[i]);
            if i > 0 {
                assert(p[i - 1] == s[i - 1]);
            }
        }
        lemma_scan_of_spaced_prefix(p);
        let (done, cur) = field_scan(p, Delimiter::Whitespace);
        let c = s.last();
        let n = s.len() - 1;
        assert(s[n] == c);
        if is_space(c) {
            assert(n > 0 && !is_space(s[n - 1]));
            assert(p.last() == s[n - 1]);
            assert(c == ' ');
            assert(join(done.push(cur), seq![' ']) + seq![' '] =~= s);
        } else if p.len() == 0 {
            assert(join(done.push(cur.push(c)), seq![' ']) =~= s) by {
                assert(done.push(cur.push(c)) =~= seq![seq![c]]);
            }
        } else if is_space(p.last()) {
            let w = done.push(cur.push(c));
            assert(w.drop_last() =~= done);
            assert(join(w, seq![' ']) =~= s);
        } else {
            let w = done.push(cur.push(c));
            let w0 = done.push(cur);
            assert(w.drop_last() =~= w0.drop_last());
            assert(s =~= p.push(c));
            if done.len() == 0 {
                assert(w0 =~= seq![cur]);
                assert(w =~= seq![cur.push(c)]);
                assert(join(w0, seq![' ']) == cur);
                assert(join(w, seq![' ']) == cur.push(c));
                assert(join(w, seq![' ']) =~= s);
            } else {
                assert(w0.drop_last() =~= done);
                assert(join(w0, seq![' ']) == join(done, seq![' ']) + seq![' '] + cur);
                assert(join(w, seq![' ']) == join(done, seq![' ']) + seq![' '] + cur.push(c));
                assert(join(w, seq![' ']) =~= s);
            }
        }
    }
}

/// Collapsing whitespace changes nothing in a single-spaced string.
pub proof fn lemma_collapse_single_spaced(s: Seq<char>)
    requires
        single_spaced(s),
    ensures
        collapse(s) == s,
{
    lemma_scan_of_spaced_prefix(s);
    if s.len() == 0 {
        assert(words(s).len() == 0);
    }
}

/// Words without whitespace, joined by single spaces, are single-spaced.
pub proof fn lemma_join_single_spaced(ws: Seq<Seq<char>>)
    requires
        forall|i: int| 0 <= i < ws.len() ==> #[trigger] ws[i].len() > 0,
        forall|i: int, j: int| 0 <= i < ws.len() && 0 <= j < ws[i].len() ==> !is_space(#[trigger] ws[i][j]),
    ensures
        single_spaced(join(ws, seq![' '])),
        ws.len() > 0 ==> join(ws, seq![' ']).len() > 0,
    decreases ws.len(),
{
    if ws.len() == 1 {
        let w = ws[0];
        assert forall|i: int| 0 <= i < w.len() implies !is_space(#[trigger] w[i]) by {
            assert(!is_space(ws[0][i]));
        }
    } else if ws.len() > 1 {
        let p = ws.drop_last();
        assert forall|i: int| 0 <= i < p.len() implies #[trigger] p[i].len() > 0 by {
            assert(p[i] == ws[i]);
        }
        assert forall|i: int, j: int| 0 <= i < p.len() && 0 <= j < p[i].len() implies !is_space(
            #[trigger] p[i][j],
        ) by {
            assert(p[i] == ws[i]);
        }
        lemma_join_single_spaced(p);
        let jp = join(p, seq![' ']);
        let w = ws.last();
        let r = join(ws, seq![' ']);
        assert(r == jp + seq![' '] + w);
        assert(w.len() > 0);
        assert forall|i: int| 0 <= i < r.len() && is_space(#[trigger] r[i]) implies r[i] == ' '
            && i > 0 && !is_space(r[i - 1]) by {
            if i < jp.len() {
                assert(r[i] == jp[i]);
                if i > 0 {
                    assert(r[i - 1] == jp[i - 1]);
                }
            } else if i == jp.len() {
                assert(r[i - 1] == jp.last());
            } else {
                assert(r[i] == w[i - jp.len() - 1]);
                assert(!is_space(ws[ws.len() - 1][i - jp.len() - 1]));
            }
        }
        assert(r.last() == w.last());
        assert(!is_space(ws[ws.len() - 1][w.len() - 1]));
    }
}

} // verus!
