//! Text helpers: characters of a string, equality, decimal numerals.

use vstd::prelude::*;

verus! {

/// The characters of `s`, in order.
pub fn chars_of(s: &str) -> (v: Vec<char>)
    ensures
        v@ == s@,
{
    let mut v: Vec<char> = Vec::new();
    for c in it: s.chars()
        invariant
            it.seq() == s@,
            v@ == it.seq().subrange(0, it.index() as int),
    {
        v.push(c);
    }
    assert(v@ =~= s@);
    v
}

/// The character that stands for the digit `d`.
pub open spec fn digit_char(d: int) -> char {
    if d == 0 {
        '0'
    } else if d == 1 {
        '1'
    } else if d == 2 {
        '2'
    } else if d == 3 {
        '3'
    } else if d == 4 {
        '4'
    } else if d == 5 {
        '5'
    } else if d == 6 {
        '6'
    } else if d == 7 {
        '7'
    } else if d == 8 {
        '8'
    } else {
        '9'
    }
}

/// The decimal numeral of `n`, without leading zeros.
pub open spec fn decimal(n: nat) -> Seq<char>
    decreases n,
{
    if n < 10 {
        seq![digit_char(n as int)]
    } else {
        decimal(n / 10).push(digit_char((n % 10) as int))
    }
}

/// The one-character string of the digit `d`.
fn digit_str(d: u64) -> (s: &'static str)
    requires
        d < 10,
    ensures
        s@ == seq![digit_char(d as int)],
{
    proof {
        reveal_strlit("0");
        reveal_strlit("1");
        reveal_strlit("2");
        reveal_strlit("3");
        reveal_strlit("4");
        reveal_strlit("5");
        reveal_strlit("6");
        reveal_strlit("7");
        reveal_strlit("8");
        reveal_strlit("9");
    }
    let s = if d == 0 {
        "0"
    } else if d == 1 {
        "1"
    } else if d == 2 {
        "2"
    } else if d == 3 {
        "3"
    } else if d == 4 {
        "4"
    } else if d == 5 {
        "5"
    } else if d == 6 {
        "6"
    } else if d == 7 {
        "7"
    } else if d == 8 {
        "8"
    } else {
        "9"
    };
    assert(s@ =~= seq![digit_char(d as int)]);
    s
}

/// Writes `n` as a decimal numeral.
pub fn decimal_string(n: u64) -> (s: String)
    ensures
        s@ == decimal(n as nat),
    decreases n,
{
    if n < 10 {
        String::from_str(digit_str(n))
    } else {
        let mut s = decimal_string(n / 10);
        s.append(digit_str(n % 10));
        assert(s@ =~= decimal(n as nat));
        s
    }
}

/// The two decimal digits of `n`, for `n` below a hundred.
pub open spec fn two_digits(n: nat) -> Seq<char> {
    seq![digit_char((n / 10) as int), digit_char((n % 10) as int)]
}

/// Writes `n` as two decimal digits.
pub(crate) fn two_digit_string(n: u64) -> (s: String)
    requires
        n < 100,
    ensures
        s@ == two_digits(n as nat),
{
    let mut s = String::from_str(digit_str(n / 10));
    s.append(digit_str(n % 10));
    assert(s@ =~= two_digits(n as nat));
    s
}

/// Whether `a` and `b` hold the same characters.
pub fn str_equal(a: &str, b: &str) -> (same: bool)
    ensures
        same == (a@ == b@),
{
    let av = chars_of(a);
    let bv = chars_of(b);
    if av.len() != bv.len() {
        return false;
    }
    let mut i: usize = 0;
    while i < av.len()
        invariant
            i <= av.len(),
            av.len() == bv.len(),
            av@ == a@,
            bv@ == b@,
            forall|k: int| 0 <= k < i ==> av@[k] == bv@[k],
        decreases av.len() - i,
    {
        if av[i] != bv[i] {
            return false;
        }
        i = i + 1;
    }
    assert(a@ =~= b@);
    true
}

/// Whether `pat` stands in `s` at position `i`.
pub open spec fn occurs_at(s: Seq<char>, i: int, pat: Seq<char>) -> bool {
    0 <= i && i + pat.len() <= s.len() && s.subrange(i, i + pat.len()) == pat
}

/// Whether `pat` stands anywhere in `s`.
pub open spec fn occurs_in(s: Seq<char>, pat: Seq<char>) -> bool {
    exists|i: int| occurs_at(s, i, pat)
}

/// `s` with every occurrence of `pat` replaced by `to`, found from the left
/// and never overlapping. An empty `pat` replaces nothing.
pub open spec fn replaced(s: Seq<char>, pat: Seq<char>, to: Seq<char>) -> Seq<char>
    decreases s.len(),
{
    if pat.len() == 0 || s.len() < pat.len() {
        s
    } else if occurs_at(s, 0, pat) {
        to + replaced(s.subrange(pat.len() as int, s.len() as int), pat, to)
    } else {
        seq![s[0]] + replaced(s.drop_first(), pat, to)
    }
}

/// Whether `pat` stands in `s` at position `i`.
fn found_at(s: &Vec<char>, i: usize, pat: &Vec<char>) -> (found: bool)
    requires
        i + pat.len() <= s.len(),
    ensures
        found == occurs_at(s@, i as int, pat@),
{
    let mut k: usize = 0;
    while k < pat.len()
        invariant
            k <= pat.len(),
            i + pat.len() <= s.len(),
            forall|j: int| 0 <= j < k ==> s@[i + j] == pat@[j],
        decreases pat.len() - k,
    {
        if s[i + k] != pat[k] {
            proof {
                let w = s@.subrange(i as int, i + pat.len());
                assert(w[k as int] == s@[i + k]);
            }
            return false;
        }
        k = k + 1;
    }
    assert(s@.subrange(i as int, i + pat.len()) =~= pat@);
    true
}

/// Replaces every occurrence of `pat` in `s` by `to`.
pub fn replace_all(s: &str, pat: &str, to: &str) -> (out: String)
    ensures
        out@ == replaced(s@, pat@, to@),
{
    let sv = chars_of(s);
    let pv = chars_of(pat);
    let n = sv.len();
    let m = pv.len();
    if m == 0 || n < m {
        return String::from_str(s);
    }
    let mut out = String::new();
    let mut start: usize = 0;
    let mut i: usize = 0;
    proof {
        assert(s@.subrange(0, n as int) =~= s@);
        assert(out@ + s@.subrange(0, 0) + s@ =~= s@);
    }
    while i <= n - m
        invariant
            sv@ == s@,
            pv@ == pat@,
            n == sv.len(),
            m == pv.len(),
            0 < m <= n,
            start <= i <= n,
            replaced(s@, pat@, to@) == out@ + s@.subrange(start as int, i as int) + replaced(
                s@.subrange(i as int, n as int),
                pat@,
                to@,
            ),
        decreases n - i,
    {
        let ghost rest = s@.subrange(i as int, n as int);
        let ghost before = out@;
        let ghost held = s@.subrange(start as int, i as int);
        if found_at(&sv, i, &pv) {
            proof {
                assert(rest.subrange(0, m as int) =~= s@.subrange(i as int, i + m));
                assert(rest.subrange(m as int, rest.len() as int) =~= s@.subrange(
                    i + m,
                    n as int,
                ));
            }
            out.append(s.substring_char(start, i));
            out.append(to);
            i = i + m;
            start = i;
            proof {
                let tail = replaced(s@.subrange(i as int, n as int), pat@, to@);
                assert(s@.subrange(start as int, i as int) =~= Seq::<char>::empty());
                assert(replaced(rest, pat@, to@) == to@ + tail);
                assert(out@ + s@.subrange(start as int, i as int) + tail =~= before + held + (to@
                    + tail));
            }
        } else {
            proof {
                assert(rest.subrange(0, m as int) =~= s@.subrange(i as int, i + m));
                assert(rest.drop_first() =~= s@.subrange(i + 1, n as int));
                assert(s@.subrange(start as int, i + 1) =~= s@.subrange(
                    start as int,
                    i as int,
                ) + seq![rest[0]]);
            }
            i = i + 1;
        }
    }
    proof {
        assert(s@.subrange(start as int, n as int) =~= s@.subrange(start as int, i as int)
            + s@.subrange(i as int, n as int));
    }
    out.append(s.substring_char(start, n));
    out
}

/// Whether no character of `to` is a character of `pat`.
pub open spec fn shares_no_char(to: Seq<char>, pat: Seq<char>) -> bool {
    forall|i: int, j: int| 0 <= i < to.len() && 0 <= j < pat.len() ==> to[i] != pat[j]
}

/// Where the replacement begins with `q`, and `q` avoids the first character
/// of `to`, the source begins with `q` as well.
proof fn lemma_prefix_kept(s: Seq<char>, pat: Seq<char>, to: Seq<char>, q: Seq<char>)
    requires
        pat.len() > 0,
        to.len() > 0,
        forall|k: int| 0 <= k < q.len() ==> q[k] != to[0],
        occurs_at(replaced(s, pat, to), 0, q),
    ensures
        occurs_at(s, 0, q),
    decreases s.len(),
{
    let r = replaced(s, pat, to);
    if q.len() == 0 {
        assert(s.subrange(0, 0) =~= q);
    } else if s.len() < pat.len() {
    } else if occurs_at(s, 0, pat) {
        assert(r.subrange(0, q.len() as int)[0] == r[0]);
        assert(r[0] == to[0]);
    } else {
        let rest = replaced(s.drop_first(), pat, to);
        let q1 = q.drop_first();
        assert(r == seq![s[0]] + rest);
        assert(r.subrange(0, q.len() as int)[0] == r[0]);
        assert(rest.subrange(0, q1.len() as int) =~= q1) by {
            assert forall|k: int| 0 <= k < q1.len() implies rest[k] == q1[k] by {
                assert(r.subrange(0, q.len() as int)[k + 1] == r[k + 1]);
            }
        }
        lemma_prefix_kept(s.drop_first(), pat, to, q1);
        assert(s.subrange(0, q.len() as int) =~= q) by {
            assert forall|k: int| 0 <= k < q.len() implies s[k] == q[k] by {
                if k > 0 {
                    assert(s.drop_first().subrange(0, q1.len() as int)[k - 1] == q1[k - 1]);
                }
            }
        }
    }
}

/// A replacement that shares no character with the pattern leaves no
/// occurrence of the pattern behind.
pub proof fn lemma_replaced_is_free(s: Seq<char>, pat: Seq<char>, to: Seq<char>)
    requires
        pat.len() > 0,
        to.len() > 0,
        shares_no_char(to, pat),
    ensures
        !occurs_in(replaced(s, pat, to), pat),
    decreases s.len(),
{
    let r = replaced(s, pat, to);
    let m = pat.len() as int;
    assert forall|j: int| !occurs_at(r, j, pat) by {
        if occurs_at(r, j, pat) {
            let w = r.subrange(j, j + m);
            assert(w[0] == r[j]);
            if s.len() < pat.len() {
            } else if occurs_at(s, 0, pat) {
                let rest = replaced(s.subrange(m, s.len() as int), pat, to);
                lemma_replaced_is_free(s.subrange(m, s.len() as int), pat, to);
                if j < to.len() {
                    assert(r[j] == to[j]);
                } else {
                    assert(rest.subrange(j - to.len(), j - to.len() + m) =~= w);
                    assert(occurs_at(rest, j - to.len(), pat));
                }
            } else {
                let rest = replaced(s.drop_first(), pat, to);
                lemma_replaced_is_free(s.drop_first(), pat, to);
                if j == 0 {
                    lemma_prefix_kept(s, pat, to, pat);
                } else {
                    assert(rest.subrange(j - 1, j - 1 + m) =~= w);
                    assert(occurs_at(rest, j - 1, pat));
                }
            }
        }
    }
}

} // verus!
