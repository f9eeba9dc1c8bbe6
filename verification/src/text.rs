//! Character-level string helpers with their specifications: substring search,
//! prefixes and suffixes, whitespace trimming, line splitting and joining,
//! decimal rendering and parsing.  Strings are modelled by their `Seq<char>` view.

use vstd::prelude::*;
use vstd::string::StringExecFns;

verus! {

broadcast use vstd::string::group_string_axioms;

// ── Substrings ───────────────────────────────────────────────────────────────

/// `p` occurs in `s` starting at index `i`.
pub open spec fn occurs_at(s: Seq<char>, p: Seq<char>, i: int) -> bool {
    0 <= i && i + p.len() <= s.len() && s.subrange(i, i + p.len()) == p
}

/// `p` occurs somewhere in `s` (the empty pattern occurs everywhere).
pub open spec fn seq_contains(s: Seq<char>, p: Seq<char>) -> bool {
    exists|i: int| #[trigger] occurs_at(s, p, i)
}

pub open spec fn seq_starts_with(s: Seq<char>, p: Seq<char>) -> bool {
    p.len() <= s.len() && s.subrange(0, p.len() as int) == p
}

pub open spec fn seq_ends_with(s: Seq<char>, p: Seq<char>) -> bool {
    p.len() <= s.len() && s.subrange(s.len() - p.len(), s.len() as int) == p
}

/// Appends `c` to a `String`.
#[verifier::external_body]
pub(crate) fn push_char(s: &mut String, c: char)
    ensures
        final(s)@ == old(s)@.push(c),
{
    s.push(c);
}

/// The characters of a string slice.
pub fn chars_of(s: &str) -> (v: Vec<char>)
    ensures
        v@ == s@,
{
    let mut v: Vec<char> = Vec::new();
    for c in it: s.chars()
        invariant
            v@ == it.seq().take(it.index() as int),
    {
        v.push(c);
    }
    v
}

/// A `String` holding exactly the given characters.
pub fn string_of(v: &Vec<char>) -> (s: String)
    ensures
        s@ == v@,
{
    let mut s = String::new();
    let mut i: usize = 0;
    while i < v.len()
        invariant
            i <= v.len(),
            s@ == v@.take(i as int),
        decreases v.len() - i,
    {
        push_char(&mut s, v[i]);
        i = i + 1;
        assert(s@ =~= v@.take(i as int));
    }
    assert(v@.take(v.len() as int) =~= v@);
    s
}

/// An owned copy of a string slice.
pub fn owned(s: &str) -> (r: String)
    ensures
        r@ == s@,
{
    s.to_string()
}

/// Concatenation of two string slices.
pub fn concat2(a: &str, b: &str) -> (r: String)
    ensures
        r@ == a@ + b@,
{
    let mut r = a.to_string();
    r.append(b);
    r
}

/// Concatenation of three string slices.
pub fn concat3(a: &str, b: &str, c: &str) -> (r: String)
    ensures
        r@ == a@ + b@ + c@,
{
    let mut r = a.to_string();
    r.append(b);
    r.append(c);
    r
}

/// Equality of two character vectors.
pub fn vec_eq(a: &Vec<char>, b: &Vec<char>) -> (r: bool)
    ensures
        r == (a@ == b@),
{
    if a.len() != b.len() {
        return false;
    }
    let mut i: usize = 0;
    while i < a.len()
        invariant
            i <= a.len(),
            a.len() == b.len(),
            forall|k: int| 0 <= k < i ==> a@[k] == b@[k],
        decreases a.len() - i,
    {
        if a[i] != b[i] {
            return false;
        }
        i = i + 1;
    }
    assert(a@ =~= b@);
    true
}

/// Equality of two string slices.
pub fn str_eq(a: &str, b: &str) -> (r: bool)
    ensures
        r == (a@ == b@),
{
    let av = chars_of(a);
    let bv = chars_of(b);
    vec_eq(&av, &bv)
}

/// Whether `p` occurs in `s` at index `i`.
pub fn occurs_at_exec(s: &Vec<char>, p: &Vec<char>, i: usize) -> (b: bool)
    requires
        i <= s.len(),
    ensures
        b == occurs_at(s@, p@, i as int),
{
    if p.len() > s.len() - i {
        return false;
    }
    let mut j: usize = 0;
    while j < p.len()
        invariant
            j <= p.len(),
            i + p.len() <= s.len(),
            forall|k: int| 0 <= k < j ==> s@[i + k] == p@[k],
        decreases p.len() - j,
    {
        if s[i + j] != p[j] {
            assert(s@.subrange(i as int, i + p.len())[j as int] != p@[j as int]);
            return false;
        }
        j = j + 1;
    }
    assert(s@.subrange(i as int, i + p.len()) =~= p@);
    true
}

/// Substring search on character vectors.
pub fn vec_contains(s: &Vec<char>, p: &Vec<char>) -> (b: bool)
    ensures
        b == seq_contains(s@, p@),
{
    let mut i: usize = 0;
    loop
        invariant
            i <= s.len(),
            forall|k: int| 0 <= k < i ==> !occurs_at(s@, p@, k),
        decreases s.len() - i,
    {
        if occurs_at_exec(s, p, i) {
            return true;
        }
        if i == s.len() {
            assert forall|k: int| !#[trigger] occurs_at(s@, p@, k) by {
                if 0 <= k < i {
                } else if k == i {
                } else {
                }
            }
            return false;
        }
        i = i + 1;
    }
}

/// `str::contains` with a string pattern.
pub fn str_contains(s: &str, p: &str) -> (b: bool)
    ensures
        b == seq_contains(s@, p@),
{
    let sv = chars_of(s);
    let pv = chars_of(p);
    vec_contains(&sv, &pv)
}

/// `str::starts_with` with a string pattern.
pub fn str_starts_with(s: &str, p: &str) -> (b: bool)
    ensures
        b == seq_starts_with(s@, p@),
{
    let sv = chars_of(s);
    let pv = chars_of(p);
    if pv.len() > sv.len() {
        return false;
    }
    let b = occurs_at_exec(&sv, &pv, 0);
    b
}

/// `str::ends_with` with a string pattern.
pub fn str_ends_with(s: &str, p: &str) -> (b: bool)
    ensures
        b == seq_ends_with(s@, p@),
{
    let sv = chars_of(s);
    let pv = chars_of(p);
    if pv.len() > sv.len() {
        return false;
    }
    let b = occurs_at_exec(&sv, &pv, sv.len() - pv.len());
    b
}

// ── Lower case ───────────────────────────────────────────────────────────────

/// What `str::to_lowercase` returns for a string (Unicode lower-case mapping).
pub uninterp spec fn lowercase(s: Seq<char>) -> Seq<char>;

/// `str::to_lowercase`: the Unicode lower-case form of `s`; the contract only
/// names the result, it does not spell out Unicode's case tables.
#[verifier::external_body]
pub(crate) fn to_lowercase(s: &str) -> (r: String)
    ensures
        r@ == lowercase(s@),
{
    s.to_lowercase()
}

// ── Whitespace ───────────────────────────────────────────────────────────────

/// Unicode `White_Space`, as `char::is_whitespace` defines it.
pub open spec fn is_ws(c: char) -> bool {
    let u = c as u32;
    ||| 0x09 <= u && u <= 0x0d
    ||| u == 0x20
    ||| u == 0x85
    ||| u == 0xa0
    ||| u == 0x1680
    ||| 0x2000 <= u && u <= 0x200a
    ||| u == 0x2028
    ||| u == 0x2029
    ||| u == 0x202f
    ||| u == 0x205f
    ||| u == 0x3000
}

pub fn is_ws_exec(c: char) -> (b: bool)
    ensures
        b == is_ws(c),
{
    let u = c as u32;
    (0x09 <= u && u <= 0x0d) || u == 0x20 || u == 0x85 || u == 0xa0 || u == 0x1680 || (0x2000
        <= u && u <= 0x200a) || u == 0x2028 || u == 0x2029 || u == 0x202f || u == 0x205f || u
        == 0x3000
}

/// Index of the first non-whitespace character at or after `i` (or `s.len()`).
pub open spec fn first_non_ws(s: Seq<char>, i: int) -> int
    decreases s.len() - i,
{
    if i < 0 || i >= s.len() {
        s.len() as int
    } else if is_ws(s[i]) {
        first_non_ws(s, i + 1)
    } else {
        i
    }
}

/// One past the last non-whitespace character before `j` (or 0).
pub open spec fn end_non_ws(s: Seq<char>, j: int) -> int
    decreases j,
{
    if j <= 0 || j > s.len() {
        0
    } else if is_ws(s[j - 1]) {
        end_non_ws(s, j - 1)
    } else {
        j
    }
}

/// `str::trim`: `s` without its leading and trailing whitespace.
pub open spec fn trim_spec(s: Seq<char>) -> Seq<char> {
    let lo = first_non_ws(s, 0);
    let hi = end_non_ws(s, s.len() as int);
    if lo < hi {
        s.subrange(lo, hi)
    } else {
        Seq::empty()
    }
}

/// `str::trim` on a character vector.
pub fn trim_vec(s: &Vec<char>) -> (r: Vec<char>)
    ensures
        r@ == trim_spec(s@),
{
    let mut lo: usize = 0;
    while lo < s.len() && is_ws_exec(s[lo])
        invariant
            lo <= s.len(),
            first_non_ws(s@, 0) == first_non_ws(s@, lo as int),
        decreases s.len() - lo,
    {
        lo = lo + 1;
    }
    let mut hi: usize = s.len();
    while hi > 0 && is_ws_exec(s[hi - 1])
        invariant
            hi <= s.len(),
            end_non_ws(s@, s.len() as int) == end_non_ws(s@, hi as int),
        decreases hi,
    {
        hi = hi - 1;
    }
    let mut r: Vec<char> = Vec::new();
    if lo < hi {
        let mut k: usize = lo;
        while k < hi
            invariant
                lo <= k <= hi,
                hi <= s.len(),
                r@ == s@.subrange(lo as int, k as int),
            decreases hi - k,
        {
            r.push(s[k]);
            k = k + 1;
            assert(r@ =~= s@.subrange(lo as int, k as int));
        }
    }
    r
}

/// `str::trim`.
pub fn trim_str(s: &str) -> (r: String)
    ensures
        r@ == trim_spec(s@),
{
    let v = chars_of(s);
    let t = trim_vec(&v);
    string_of(&t)
}

// ── Lines ────────────────────────────────────────────────────────────────────

/// Index of the first `'\n'` in `s`, or `s.len()` when there is none.
pub open spec fn nl_pos(s: Seq<char>) -> int
    decreases s.len(),
{
    if s.len() == 0 {
        0
    } else if s[0] == '\n' {
        0
    } else {
        1 + nl_pos(s.drop_first())
    }
}

/// Drops one trailing `'\r'`.
pub open spec fn strip_cr(l: Seq<char>) -> Seq<char> {
    if l.len() > 0 && l.last() == '\r' {
        l.drop_last()
    } else {
        l
    }
}

/// `str::lines`: pieces between `"\n"` terminators, each terminated piece
/// losing one trailing `'\r'`; a final terminator adds no empty line.
pub open spec fn lines_spec(s: Seq<char>) -> Seq<Seq<char>>
    decreases s.len(),
{
    if s.len() == 0 {
        Seq::empty()
    } else {
        let p = nl_pos(s);
        proof {
            lemma_nl_pos_bounds(s);
        }
        if p < s.len() {
            seq![strip_cr(s.take(p))] + lines_spec(s.skip(p + 1))
        } else {
            seq![s]
        }
    }
}

/// The lines joined with `'\n'` between them (`[T]::join("\n")`).
pub open spec fn join_nl(ls: Seq<Seq<char>>) -> Seq<char>
    decreases ls.len(),
{
    if ls.len() == 0 {
        Seq::empty()
    } else if ls.len() == 1 {
        ls[0]
    } else {
        join_nl(ls.drop_last()) + seq!['\n'] + ls.last()
    }
}

pub proof fn lemma_nl_pos_bounds(s: Seq<char>)
    ensures
        0 <= nl_pos(s) <= s.len(),
        nl_pos(s) < s.len() ==> s[nl_pos(s)] == '\n',
        forall|k: int| 0 <= k < nl_pos(s) ==> s[k] != '\n',
    decreases s.len(),
{
    if s.len() > 0 && s[0] != '\n' {
        lemma_nl_pos_bounds(s.drop_first());
        assert forall|k: int| 0 <= k < nl_pos(s) implies s[k] != '\n' by {
            if k > 0 {
                assert(s[k] == s.drop_first()[k - 1]);
            }
        }
    }
}

/// The position of the first newline is fixed by the characters before it.
pub proof fn lemma_nl_pos_prefix(a: Seq<char>, b: Seq<char>)
    requires
        forall|k: int| 0 <= k < a.len() ==> a[k] != '\n',
    ensures
        nl_pos(a + b) == a.len() + nl_pos(b),
    decreases a.len(),
{
    if a.len() > 0 {
        assert((a + b).drop_first() =~= a.drop_first() + b);
        lemma_nl_pos_prefix(a.drop_first(), b);
    } else {
        assert(a + b =~= b);
    }
}

/// `str::lines`, on character vectors.
pub fn lines_vec(s: &Vec<char>) -> (r: Vec<Vec<char>>)
    ensures
        r@.len() == lines_spec(s@).len(),
        forall|i: int| 0 <= i < r@.len() ==> #[trigger] r@[i]@ == lines_spec(s@)[i],
{
    let mut out: Vec<Vec<char>> = Vec::new();
    let ghost mut acc: Seq<Seq<char>> = Seq::empty();
    let mut cur: Vec<char> = Vec::new();
    let mut i: usize = 0;
    proof {
        assert(s@.skip(0) =~= s@);
        assert(cur@ + s@.skip(0) =~= s@);
        assert(acc + lines_spec(s@) =~= lines_spec(s@));
    }
    while i < s.len()
        invariant
            i <= s.len(),
            out@.len() == acc.len(),
            forall|k: int| 0 <= k < out@.len() ==> #[trigger] out@[k]@ == acc[k],
            forall|k: int| 0 <= k < cur@.len() ==> cur@[k] != '\n',
            lines_spec(s@) == acc + lines_spec(cur@ + s@.skip(i as int)),
        decreases s.len() - i,
    {
        let c = s[i];
        let ghost rest = s@.skip(i as int);
        let ghost rest1 = s@.skip(i + 1);
        assert(rest =~= seq![c] + rest1);
        if c == '\n' {
            proof {
                let w = cur@ + rest;
                lemma_nl_pos_prefix(cur@, rest);
                assert(nl_pos(rest) == 0);
                assert(w.take(cur@.len() as int) =~= cur@);
                assert(w.skip(cur@.len() as int + 1) =~= rest1);
                assert(lines_spec(w) == seq![strip_cr(cur@)] + lines_spec(rest1));
                assert(rest1 =~= Seq::<char>::empty() + rest1);
            }
            let line = if cur.len() > 0 && cur[cur.len() - 1] == '\r' {
                let mut t = cur.clone();
                t.pop();
                t
            } else {
                cur.clone()
            };
            assert(line@ == strip_cr(cur@)) by {
                if cur@.len() > 0 && cur@.last() == '\r' {
                    assert(line@ =~= cur@.drop_last());
                }
            }
            out.push(line);
            proof {
                acc = acc.push(strip_cr(cur@));
                assert(lines_spec(s@) == acc + lines_spec(Seq::<char>::empty() + s@.skip(i + 1)));
            }
            cur = Vec::new();
        } else {
            proof {
                assert(cur@ + rest =~= cur@.push(c) + rest1);
            }
            cur.push(c);
        }
        i = i + 1;
    }
    proof {
        assert(s@.skip(s.len() as int) =~= Seq::<char>::empty());
        assert(cur@ + s@.skip(s.len() as int) =~= cur@);
    }
    if cur.len() > 0 {
        proof {
            lemma_nl_pos_prefix(cur@, Seq::<char>::empty());
            assert(cur@ + Seq::<char>::empty() =~= cur@);
            assert(lines_spec(cur@) == seq![cur@]);
            acc = acc.push(cur@);
            assert(lines_spec(s@) =~= acc);
        }
        out.push(cur);
    } else {
        proof {
            assert(lines_spec(cur@) == Seq::<Seq<char>>::empty());
            assert(lines_spec(s@) =~= acc);
        }
    }
    out
}

/// Lines joined with `'\n'` (`[T]::join("\n")`).
pub fn join_lines(ls: &Vec<Vec<char>>) -> (r: Vec<char>)
    ensures
        r@ == join_nl(ls@.map_values(|l: Vec<char>| l@)),
{
    let ghost views = ls@.map_values(|l: Vec<char>| l@);
    let mut r: Vec<char> = Vec::new();
    let mut i: usize = 0;
    while i < ls.len()
        invariant
            i <= ls.len(),
            views == ls@.map_values(|l: Vec<char>| l@),
            r@ == join_nl(views.take(i as int)),
        decreases ls.len() - i,
    {
        proof {
            assert(views.take(i + 1).drop_last() =~= views.take(i as int));
        }
        if i > 0 {
            r.push('\n');
        }
        let line = &ls[i];
        let mut k: usize = 0;
        let ghost before = r@;
        while k < line.len()
            invariant
                k <= line.len(),
                r@ == before + line@.take(k as int),
            decreases line.len() - k,
        {
            r.push(line[k]);
            k = k + 1;
            assert(r@ =~= before + line@.take(k as int));
        }
        assert(line@.take(line.len() as int) =~= line@);
        i = i + 1;
        proof {
            if i == 1 {
                assert(before =~= Seq::<char>::empty());
                assert(r@ =~= views.take(1)[0]);
            }
        }
    }
    assert(views.take(ls.len() as int) =~= views);
    r
}

// ── Decimal numbers ──────────────────────────────────────────────────────────

pub open spec fn digit_char(d: nat) -> char {
    if d == 0 {
        '0'
    } else if d == 1 {
        '1'
    } else if d == 2 {
        '2'
    } else if d == 3 {
        '3'
    } else if d == 4 {
        '4'
    } else if d == 5 {
        '5'
    } else if d == 6 {
        '6'
    } else if d == 7 {
        '7'
    } else if d == 8 {
        '8'
    } else {
        '9'
    }
}

/// The decimal digits of `n`, as `usize`'s `Display` writes them.
pub open spec fn decimal(n: nat) -> Seq<char>
    decreases n,
{
    if n < 10 {
        seq![digit_char(n)]
    } else {
        decimal(n / 10).push(digit_char(n % 10))
    }
}

fn digit_exec(d: usize) -> (c: char)
    requires
        d < 10,
    ensures
        c == digit_char(d as nat),
{
    if d == 0 {
        '0'
    } else if d == 1 {
        '1'
    } else if d == 2 {
        '2'
    } else if d == 3 {
        '3'
    } else if d == 4 {
        '4'
    } else if d == 5 {
        '5'
    } else if d == 6 {
        '6'
    } else if d == 7 {
        '7'
    } else if d == 8 {
        '8'
    } else {
        '9'
    }
}

fn decimal_vec(n: usize) -> (v: Vec<char>)
    ensures
        v@ == decimal(n as nat),
    decreases n,
{
    if n < 10 {
        let mut v: Vec<char> = Vec::new();
        v.push(digit_exec(n));
        assert(v@ =~= seq![digit_char(n as nat)]);
        v
    } else {
        let mut v = decimal_vec(n / 10);
        v.push(digit_exec(n % 10));
        v
    }
}

/// `usize::to_string`.
pub fn usize_to_string(n: usize) -> (s: String)
    ensures
        s@ == decimal(n as nat),
{
    let v = decimal_vec(n);
    string_of(&v)
}

pub open spec fn is_digit(c: char) -> bool {
    '0' <= c && c <= '9'
}

pub open spec fn digit_value(c: char) -> nat {
    ((c as u32) - ('0' as u32)) as nat
}

/// The value of a sequence of decimal digits.
pub open spec fn digits_value(s: Seq<char>) -> nat
    decreases s.len(),
{
    if s.len() == 0 {
        0
    } else {
        digits_value(s.drop_last()) * 10 + digit_value(s.last())
    }
}

/// The digits part of a decimal literal: `s` without one leading `'+'`.
pub open spec fn unsigned_part(s: Seq<char>) -> Seq<char> {
    if s.len() > 0 && s[0] == '+' {
        s.drop_first()
    } else {
        s
    }
}

pub open spec fn all_digits(t: Seq<char>) -> bool {
    forall|i: int| 0 <= i < t.len() ==> is_digit(#[trigger] t[i])
}

/// `str::parse::<usize>`: an optional `'+'`, then one or more ASCII digits,
/// whose value fits in `usize`; anything else is an error (`None`).
pub open spec fn parse_usize_spec(s: Seq<char>) -> Option<nat> {
    let t = unsigned_part(s);
    if t.len() > 0 && all_digits(t) && digits_value(t) <= usize::MAX {
        Some(digits_value(t))
    } else {
        None
    }
}

proof fn lemma_digits_value_mono(s: Seq<char>, i: int)
    requires
        0 <= i <= s.len(),
        all_digits(s),
    ensures
        digits_value(s.take(i)) <= digits_value(s),
    decreases s.len() - i,
{
    if i < s.len() {
        lemma_digits_value_mono(s, i + 1);
        assert(s.take(i + 1).drop_last() =~= s.take(i));
        assert(digits_value(s.take(i + 1)) == digits_value(s.take(i)) * 10 + digit_value(
            s.take(i + 1).last(),
        ));
    } else {
        assert(s.take(i) =~= s);
    }
}

/// `str::parse::<usize>` (an error becomes `None`).
pub fn parse_usize(s: &str) -> (r: Option<usize>)
    ensures
        match r {
            Some(n) => parse_usize_spec(s@) == Some(n as nat),
            None => parse_usize_spec(s@) is None,
        },
{
    let v = chars_of(s);
    let start: usize = if v.len() > 0 && v[0] == '+' {
        1
    } else {
        0
    };
    let ghost t = unsigned_part(v@);
    assert(t =~= v@.skip(start as int));
    if start >= v.len() {
        return None;
    }
    let mut acc: usize = 0;
    let mut i: usize = start;
    while i < v.len()
        invariant
            start <= i <= v.len(),
            v@ == s@,
            t == v@.skip(start as int),
            t == unsigned_part(s@),
            forall|k: int| 0 <= k < i - start ==> is_digit(#[trigger] t[k]),
            acc as nat == digits_value(t.take(i - start)),
        decreases v.len() - i,
    {
        let c = v[i];
        assert(c == t[i - start]);
        if !('0' <= c && c <= '9') {
            assert(!is_digit(t[i - start]));
            assert(!all_digits(t));
            assert(parse_usize_spec(s@) is None);
            return None;
        }
        let d = ((c as u32) - ('0' as u32)) as usize;
        assert(t.take(i - start + 1).last() == c);
        assert(digit_value(c) == d);
        assert(t.take(i - start + 1).drop_last() =~= t.take(i - start));
        if acc > (usize::MAX - d) / 10 {
            proof {
                assert forall|k: int| 0 <= k < i - start + 1 implies is_digit(
                    #[trigger] t[k],
                ) by {}
                // The value only grows with more digits, so it cannot fit.
                if all_digits(t) {
                    lemma_digits_value_mono(t, i - start + 1);
                    assert(digits_value(t.take(i - start + 1)) == acc * 10 + d);
                    assert(acc * 10 + d > usize::MAX) by (nonlinear_arith)
                        requires
                            acc > (usize::MAX - d) / 10,
                            d <= 9,
                    ;
                }
            }
            return None;
        }
        acc = acc * 10 + d;
        i = i + 1;
    }
    assert(t.take(v.len() - start) =~= t);
    Some(acc)
}

} // verus!
