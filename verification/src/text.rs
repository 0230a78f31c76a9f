//! Text as sequences of Unicode scalar values: comparison, conversion, decimal
//! numbers, search and replacement.

use vstd::prelude::*;
use vstd::string::StringSliceAdditionalSpecFns;

verus! {

/// Whether two strings hold the same text.
pub fn str_eq(a: &str, b: &str) -> (r: bool)
    ensures
        r == (a@ == b@),
{
    let x = a.as_bytes();
    let y = b.as_bytes();
    proof {
        vstd::utf8::encode_utf8_decode_utf8(a@);
        vstd::utf8::encode_utf8_decode_utf8(b@);
    }
    if x.len() != y.len() {
        assert(a@ == b@ ==> a.spec_bytes() == b.spec_bytes());
        return false;
    }
    assert(x@ == y@ ==> a@ == b@);
    let mut i: usize = 0;
    while i < x.len()
        invariant
            x@.len() == y@.len(),
            i <= x@.len(),
            x@.take(i as int) == y@.take(i as int),
            x@ == a.spec_bytes(),
            y@ == b.spec_bytes(),
        decreases x@.len() - i,
    {
        if x[i] != y[i] {
            assert(a@ == b@ ==> a.spec_bytes() == b.spec_bytes());
            return false;
        }
        i += 1;
        assert(x@.take(i as int) == x@.take(i - 1).push(x@[i - 1]));
        assert(y@.take(i as int) == y@.take(i - 1).push(y@[i - 1]));
    }
    assert(x@ == x@.take(i as int));
    assert(y@ == y@.take(i as int));
    true
}

/// The Unicode scalar values of a string.
pub fn to_chars(s: &str) -> (v: Vec<char>)
    ensures
        v@ == s@,
{
    let mut v: Vec<char> = Vec::new();
    for c in it: s.chars()
        invariant
            v@ == it.seq().take(it.index() as int),
            it.seq() == s@,
    {
        v.push(c);
    }
    v
}

/// Appends one character to a string, by `String::push` of the standard
/// library. Not proved: that the string then holds what it held, and `c`
/// behind it.
#[verifier::external_body]
fn push_char(s: &mut String, c: char)
    ensures
        final(s)@ == old(s)@.push(c),
{
    s.push(c)
}

/// The string that holds the given Unicode scalar values.
pub fn from_chars(v: &Vec<char>) -> (s: String)
    ensures
        s@ == v@,
{
    let mut s = String::new();
    let mut i: usize = 0;
    while i < v.len()
        invariant
            i <= v@.len(),
            s@ == v@.take(i as int),
        decreases v@.len() - i,
    {
        push_char(&mut s, v[i]);
        i += 1;
        assert(v@.take(i as int) == v@.take(i - 1).push(v@[i - 1]));
    }
    assert(v@ == v@.take(i as int));
    s
}

/// The character of the decimal digit `d`: `0` for 0, up to `9` for 9.
pub open spec fn digit(d: int) -> char {
    ('0' as int + d) as char
}

/// The decimal numeral of `n`, without leading zeros.
pub open spec fn decimal(n: nat) -> Seq<char>
    decreases n,
{
    if n < 10 {
        seq![digit(n as int)]
    } else {
        decimal(n / 10).push(digit((n % 10) as int))
    }
}

/// The decimal numeral of `n`, with zeros in front up to `width` characters.
pub open spec fn zero_padded(n: nat, width: nat) -> Seq<char> {
    let digits = decimal(n);
    if digits.len() >= width {
        digits
    } else {
        Seq::new((width - digits.len()) as nat, |i: int| '0') + digits
    }
}

/// Whether `pat` stands in `s` at position `i`.
pub open spec fn occurs_at(s: Seq<char>, pat: Seq<char>, i: int) -> bool {
    0 <= i && i + pat.len() <= s.len() && s.subrange(i, i + pat.len()) == pat
}

/// Whether `pat` stands somewhere in `s`.
pub open spec fn contains(s: Seq<char>, pat: Seq<char>) -> bool {
    exists|i: int| occurs_at(s, pat, i)
}

/// `rep` before, between and after the characters of `s`.
pub open spec fn interleave(s: Seq<char>, rep: Seq<char>) -> Seq<char>
    decreases s.len(),
{
    if s.len() == 0 {
        rep
    } else {
        rep + seq![s[0]] + interleave(s.skip(1), rep)
    }
}

/// `s` with `rep` in the place of every occurrence of `pat`. Occurrences are
/// taken from the left and do not overlap. The empty pattern occurs before,
/// between and after the characters.
pub open spec fn replace_all(s: Seq<char>, pat: Seq<char>, rep: Seq<char>) -> Seq<char>
    decreases s.len(),
{
    if pat.len() == 0 {
        interleave(s, rep)
    } else if s.len() < pat.len() {
        s
    } else if occurs_at(s, pat, 0) {
        rep + replace_all(s.skip(pat.len() as int), pat, rep)
    } else {
        seq![s[0]] + replace_all(s.skip(1), pat, rep)
    }
}

/// The character of a decimal digit.
fn digit_char(d: u8) -> (c: char)
    requires
        d < 10,
    ensures
        c == digit(d as int),
{
    (48u8 + d) as char
}

/// Appends the decimal numeral of `n`.
pub fn push_decimal(out: &mut Vec<char>, n: u64)
    ensures
        final(out)@ == old(out)@ + decimal(n as nat),
    decreases n,
{
    if n >= 10 {
        push_decimal(out, n / 10);
    }
    out.push(digit_char((n % 10) as u8));
    assert(out@ == old(out)@ + decimal(n as nat));
}

/// Appends the decimal numeral of `n`, with zeros in front up to `width`
/// characters.
pub fn push_zero_padded(out: &mut Vec<char>, n: u64, width: usize)
    ensures
        final(out)@ == old(out)@ + zero_padded(n as nat, width as nat),
{
    let mut digits: Vec<char> = Vec::new();
    push_decimal(&mut digits, n);
    assert(digits@ == decimal(n as nat));
    let ghost start = out@;
    let mut k: usize = digits.len();
    while k < width
        invariant
            digits@.len() <= k,
            k <= width || k == digits@.len(),
            out@ == start + Seq::new((k - digits@.len()) as nat, |i: int| '0'),
        decreases width - k,
    {
        out.push('0');
        k += 1;
    }
    append(out, &digits);
    assert(out@ == start + zero_padded(n as nat, width as nat));
}

/// Appends the characters of `more`.
pub fn append(out: &mut Vec<char>, more: &Vec<char>)
    ensures
        final(out)@ == old(out)@ + more@,
{
    let mut i: usize = 0;
    while i < more.len()
        invariant
            i <= more@.len(),
            out@ == old(out)@ + more@.take(i as int),
        decreases more@.len() - i,
    {
        out.push(more[i]);
        i += 1;
    }
    assert(more@.take(i as int) == more@);
}

/// Whether `pat` stands in `s` at position `i`.
pub fn matches_at(s: &Vec<char>, pat: &Vec<char>, i: usize) -> (r: bool)
    ensures
        r == occurs_at(s@, pat@, i as int),
{
    if i > s.len() || pat.len() > s.len() - i {
        return false;
    }
    let mut k: usize = 0;
    while k < pat.len()
        invariant
            k <= pat@.len(),
            i + pat@.len() <= s@.len() <= usize::MAX,
            s@.subrange(i as int, i + k) == pat@.take(k as int),
        decreases pat@.len() - k,
    {
        if s[i + k] != pat[k] {
            assert(s@.subrange(i as int, i + pat@.len())[k as int] != pat@[k as int]);
            return false;
        }
        k += 1;
        assert(s@.subrange(i as int, i + k) == s@.subrange(i as int, i + k - 1).push(
            s@[i + k - 1],
        ));
        assert(pat@.take(k as int) == pat@.take(k - 1).push(pat@[k - 1]));
    }
    assert(pat@.take(k as int) == pat@);
    true
}

/// Whether `pat` stands somewhere in `s`.
pub fn find(s: &Vec<char>, pat: &Vec<char>) -> (r: bool)
    ensures
        r == contains(s@, pat@),
{
    let mut i: usize = 0;
    while i < s.len()
        invariant
            i <= s@.len(),
            forall|j: int| 0 <= j < i ==> !occurs_at(s@, pat@, j),
        decreases s@.len() - i,
    {
        if matches_at(s, pat, i) {
            return true;
        }
        i += 1;
    }
    matches_at(s, pat, i)
}

/// `s` with `rep` in the place of every occurrence of `pat`, as
/// [`replace_all`] defines it.
pub fn replace(s: &Vec<char>, pat: &Vec<char>, rep: &Vec<char>) -> (r: Vec<char>)
    ensures
        r@ == replace_all(s@, pat@, rep@),
{
    let mut out: Vec<char> = Vec::new();
    let mut i: usize = 0;
    assert(s@.skip(0) == s@);
    if pat.len() == 0 {
        while i < s.len()
            invariant
                i <= s@.len(),
                interleave(s@, rep@) == out@ + interleave(s@.skip(i as int), rep@),
            decreases s@.len() - i,
        {
            assert(s@.skip(i as int).skip(1) == s@.skip(i + 1));
            append(&mut out, rep);
            out.push(s[i]);
            i += 1;
        }
        append(&mut out, rep);
        return out;
    }
    while i < s.len()
        invariant
            i <= s@.len(),
            pat@.len() > 0,
            replace_all(s@, pat@, rep@) == out@ + replace_all(s@.skip(i as int), pat@, rep@),
        decreases s@.len() - i,
    {
        let ghost rest = s@.skip(i as int);
        if matches_at(s, pat, i) {
            assert(rest.subrange(0, pat@.len() as int) == s@.subrange(i as int, i + pat@.len()));
            assert(rest.skip(pat@.len() as int) == s@.skip(i + pat@.len()));
            append(&mut out, rep);
            i += pat.len();
        } else {
            if s.len() - i >= pat.len() {
                assert(rest.subrange(0, pat@.len() as int) == s@.subrange(
                    i as int,
                    i + pat@.len(),
                ));
                assert(rest.skip(1) == s@.skip(i + 1));
                out.push(s[i]);
                i += 1;
            } else {
                assert(replace_all(rest, pat@, rep@) == rest);
                let ghost before = out@;
                let ghost from = i;
                while i < s.len()
                    invariant
                        from <= i <= s@.len(),
                        out@ == before + s@.subrange(from as int, i as int),
                    decreases s@.len() - i,
                {
                    out.push(s[i]);
                    i += 1;
                }
                assert(s@.subrange(from as int, i as int) == rest);
                assert(s@.skip(i as int) == Seq::<char>::empty());
            }
        }
    }
    assert(s@.skip(i as int) == Seq::<char>::empty());
    out
}

/// Whether `s` begins with `q`.
pub open spec fn is_prefix(q: Seq<char>, s: Seq<char>) -> bool {
    q.len() <= s.len() && s.subrange(0, q.len() as int) == q
}

/// Whether the character `c` stands nowhere in `s`.
pub open spec fn lacks(s: Seq<char>, c: char) -> bool {
    forall|i: int| 0 <= i < s.len() ==> s[i] != c
}

/// Where pattern and replacement both begin with `c`, a text without `c`
/// that begins the result of a replacement began the text before it.
pub proof fn lemma_replace_prefix(
    s: Seq<char>,
    pat: Seq<char>,
    rep: Seq<char>,
    q: Seq<char>,
    c: char,
)
    requires
        pat.len() > 0,
        pat[0] == c,
        rep.len() > 0,
        rep[0] == c,
        lacks(q, c),
        is_prefix(q, replace_all(s, pat, rep)),
    ensures
        is_prefix(q, s),
    decreases s.len(),
{
    let out = replace_all(s, pat, rep);
    if q.len() == 0 {
        assert(s.subrange(0, 0) =~= q);
    } else if s.len() >= pat.len() {
        assert(out.subrange(0, q.len() as int)[0] == q[0]);
        if occurs_at(s, pat, 0) {
            assert(out[0] == rep[0]);
            assert(false);
        } else {
            let rest = s.skip(1);
            let out1 = replace_all(rest, pat, rep);
            let q1 = q.skip(1);
            assert(out == seq![s[0]] + out1);
            assert(q[0] == s[0]);
            assert(out1.subrange(0, q1.len() as int) =~= q1) by {
                assert forall|i: int| 0 <= i < q1.len() implies out1[i] == q1[i] by {
                    assert(out.subrange(0, q.len() as int)[i + 1] == q[i + 1]);
                    assert(out[i + 1] == out1[i]);
                }
            }
            assert(lacks(q1, c)) by {
                assert forall|i: int| 0 <= i < q1.len() implies q1[i] != c by {
                    assert(q1[i] == q[i + 1]);
                }
            }
            lemma_replace_prefix(rest, pat, rep, q1, c);
            assert(s.subrange(0, q.len() as int) =~= q) by {
                assert forall|i: int| 0 <= i < q.len() implies s[i] == q[i] by {
                    if i > 0 {
                        assert(rest.subrange(0, q1.len() as int)[i - 1] == q1[i - 1]);
                        assert(rest[i - 1] == s[i]);
                    }
                }
            }
        }
    }
}

/// Whether replacing `pat` by `rep` can bring no `target` about: all three
/// begin with `c`, which stands nowhere else in `target` or in `rep`, and
/// `rep` goes on otherwise than `target` does.
pub open spec fn clears(pat: Seq<char>, rep: Seq<char>, target: Seq<char>, c: char) -> bool {
    &&& target.len() >= 2
    &&& target[0] == c
    &&& lacks(target.skip(1), c)
    &&& pat.len() > 0
    &&& pat[0] == c
    &&& rep.len() >= 2
    &&& rep[0] == c
    &&& rep[1] != target[1]
    &&& lacks(rep.skip(1), c)
}

/// After such a replacement `target` stands at no position, where it is the
/// pattern itself or did not occur before.
pub proof fn lemma_replace_clears_at(
    s: Seq<char>,
    pat: Seq<char>,
    rep: Seq<char>,
    target: Seq<char>,
    c: char,
    k: int,
)
    requires
        clears(pat, rep, target, c),
        target == pat || !contains(s, target),
    ensures
        !occurs_at(replace_all(s, pat, rep), target, k),
    decreases s.len(),
{
    let out = replace_all(s, pat, rep);
    if occurs_at(out, target, k) {
        let found = out.subrange(k, k + target.len());
        assert(found[0] == target[0]);
        assert(found[1] == target[1]);
        if s.len() < pat.len() {
            assert(occurs_at(s, target, k));
        } else if occurs_at(s, pat, 0) {
            let rest = s.skip(pat.len() as int);
            let out1 = replace_all(rest, pat, rep);
            assert(out == rep + out1);
            if target != pat {
                assert forall|j: int| !occurs_at(rest, target, j) by {
                    if occurs_at(rest, target, j) {
                        assert(rest.subrange(j, j + target.len()) == s.subrange(
                            j + pat.len(),
                            j + pat.len() + target.len(),
                        ));
                        assert(occurs_at(s, target, j + pat.len()));
                    }
                }
            }
            if k >= rep.len() {
                assert(out1.subrange(k - rep.len(), k - rep.len() + target.len()) == found);
                lemma_replace_clears_at(rest, pat, rep, target, c, k - rep.len());
            } else if k == 0 {
                assert(out[1] == rep[1]);
            } else {
                assert(out[k] == rep[k]);
                assert(rep.skip(1)[k - 1] == rep[k]);
            }
        } else {
            let rest = s.skip(1);
            let out1 = replace_all(rest, pat, rep);
            assert(out == seq![s[0]] + out1);
            if target != pat {
                assert forall|j: int| !occurs_at(rest, target, j) by {
                    if occurs_at(rest, target, j) {
                        assert(rest.subrange(j, j + target.len()) == s.subrange(
                            j + 1,
                            j + 1 + target.len(),
                        ));
                        assert(occurs_at(s, target, j + 1));
                    }
                }
            }
            if k >= 1 {
                assert(out1.subrange(k - 1, k - 1 + target.len()) == found);
                lemma_replace_clears_at(rest, pat, rep, target, c, k - 1);
            } else {
                let q = target.skip(1);
                assert(out1.subrange(0, q.len() as int) =~= q) by {
                    assert forall|i: int| 0 <= i < q.len() implies out1[i] == q[i] by {
                        assert(found[i + 1] == target[i + 1]);
                        assert(out[i + 1] == out1[i]);
                    }
                }
                lemma_replace_prefix(rest, pat, rep, q, c);
                assert(s.subrange(0, target.len() as int) =~= target) by {
                    assert forall|i: int| 0 <= i < target.len() implies s[i] == target[i] by {
                        if i > 0 {
                            assert(rest.subrange(0, q.len() as int)[i - 1] == q[i - 1]);
                            assert(rest[i - 1] == s[i]);
                        }
                    }
                }
                assert(occurs_at(s, target, 0));
            }
        }
    }
}

/// After such a replacement `target` occurs nowhere, where it is the pattern
/// itself or did not occur before.
pub proof fn lemma_replace_clears(
    s: Seq<char>,
    pat: Seq<char>,
    rep: Seq<char>,
    target: Seq<char>,
    c: char,
)
    requires
        clears(pat, rep, target, c),
        target == pat || !contains(s, target),
    ensures
        !contains(replace_all(s, pat, rep), target),
{
    assert forall|k: int| !occurs_at(replace_all(s, pat, rep), target, k) by {
        lemma_replace_clears_at(s, pat, rep, target, c, k);
    }
}

/// A text in which `pat` does not occur is left as it is.
pub proof fn lemma_replace_absent(s: Seq<char>, pat: Seq<char>, rep: Seq<char>)
    requires
        pat.len() > 0,
        !contains(s, pat),
    ensures
        replace_all(s, pat, rep) == s,
    decreases s.len(),
{
    if s.len() >= pat.len() {
        assert(!occurs_at(s, pat, 0));
        let rest = s.skip(1);
        assert forall|j: int| !occurs_at(rest, pat, j) by {
            if occurs_at(rest, pat, j) {
                assert(rest.subrange(j, j + pat.len()) == s.subrange(j + 1, j + 1 + pat.len()));
                assert(occurs_at(s, pat, j + 1));
            }
        }
        lemma_replace_absent(rest, pat, rep);
        assert(seq![s[0]] + rest == s);
    }
}

} // verus!
