//! Text primitives shared by the naming and rendering code: decimal numerals,
//! character access and substitution of a marker.

use vstd::prelude::*;
use vstd::std_specs::iter::IteratorSpec;

verus! {

/// The ten decimal digits, in order.
pub open spec fn digits() -> Seq<char> {
    seq!['0', '1', '2', '3', '4', '5', '6', '7', '8', '9']
}

/// The decimal numeral of `n`: no sign, and no leading zero except for zero itself.
pub open spec fn decimal_spec(n: nat) -> Seq<char>
    decreases n,
{
    if n < 10 {
        seq![digits()[n as int]]
    } else {
        decimal_spec(n / 10).push(digits()[(n % 10) as int])
    }
}

fn digit(d: u64) -> (r: &'static str)
    requires
        d < 10,
    ensures
        r@ == seq![digits()[d as int]],
{
    proof {
        reveal_strlit("0");
        reveal_strlit("1");
        reveal_strlit("2");
        reveal_strlit("3");
        reveal_strlit("4");
        reveal_strlit("5");
        reveal_strlit("6");
        reveal_strlit("7");
        reveal_strlit("8");
        reveal_strlit("9");
    }
    if d == 0 {
        "0"
    } else if d == 1 {
        "1"
    } else if d == 2 {
        "2"
    } else if d == 3 {
        "3"
    } else if d == 4 {
        "4"
    } else if d == 5 {
        "5"
    } else if d == 6 {
        "6"
    } else if d == 7 {
        "7"
    } else if d == 8 {
        "8"
    } else {
        "9"
    }
}

/// Writes `n` as a decimal numeral.
pub fn decimal(n: u64) -> (r: String)
    ensures
        r@ == decimal_spec(n as nat),
    decreases n,
{
    if n < 10 {
        String::from_str(digit(n))
    } else {
        let mut numeral = decimal(n / 10);
        numeral.append(digit(n % 10));
        numeral
    }
}

/// A numeral is never empty.
pub proof fn lemma_decimal_nonempty(n: nat)
    ensures
        decimal_spec(n).len() >= 1,
        n >= 10 ==> decimal_spec(n).len() >= 2,
    decreases n,
{
    if n >= 10 {
        lemma_decimal_nonempty(n / 10);
    }
}

proof fn lemma_digits_differ(i: int, j: int)
    requires
        0 <= i < 10,
        0 <= j < 10,
        digits()[i] == digits()[j],
    ensures
        i == j,
{
    let d = digits();
    assert(d[0] == '0' && d[1] == '1' && d[2] == '2' && d[3] == '3' && d[4] == '4');
    assert(d[5] == '5' && d[6] == '6' && d[7] == '7' && d[8] == '8' && d[9] == '9');
}

/// Two numbers with the same numeral are the same number.
pub proof fn lemma_decimal_injective(a: nat, b: nat)
    requires
        decimal_spec(a) == decimal_spec(b),
    ensures
        a == b,
    decreases a,
{
    lemma_decimal_nonempty(a);
    lemma_decimal_nonempty(b);
    if a < 10 {
        assert(decimal_spec(a).len() == 1);
        assert(b < 10);
        assert(decimal_spec(a)[0] == digits()[a as int]);
        assert(decimal_spec(b)[0] == digits()[b as int]);
        lemma_digits_differ(a as int, b as int);
    } else if b < 10 {
        assert(decimal_spec(b).len() == 1);
    } else {
        let x = decimal_spec(a / 10);
        let y = decimal_spec(b / 10);
        let p = digits()[(a % 10) as int];
        let q = digits()[(b % 10) as int];
        assert(decimal_spec(a) == x.push(p));
        assert(decimal_spec(b) == y.push(q));
        assert(x.push(p).drop_last() =~= x);
        assert(y.push(q).drop_last() =~= y);
        assert(x.push(p).last() == p);
        assert(y.push(q).last() == q);
        assert(x == y);
        assert(p == q);
        lemma_decimal_injective(a / 10, b / 10);
        lemma_digits_differ((a % 10) as int, (b % 10) as int);
    }
}

/// The characters of `s`, one element each.
pub fn chars_of(s: &str) -> (r: Vec<char>)
    ensures
        r@ == s@,
{
    let mut chars: Vec<char> = Vec::new();
    for c in it: s.chars()
        invariant
            it.seq() == s@,
            chars@ == s@.take(it.index() as int),
    {
        chars.push(c);
    }
    chars
}

/// Whether `pattern` stands in `text` at position `at`.
pub open spec fn occurs_at(text: Seq<char>, pattern: Seq<char>, at: int) -> bool {
    &&& 0 <= at
    &&& at + pattern.len() <= text.len()
    &&& forall|k: int| 0 <= k < pattern.len() ==> text[at + k] == #[trigger] pattern[k]
}

/// `text` with each occurrence of `pattern` replaced by `with`. Occurrences are
/// taken from the left, and one that overlaps an occurrence already replaced
/// does not count. An empty pattern occurs nowhere.
pub open spec fn substitute_spec(text: Seq<char>, pattern: Seq<char>, with: Seq<char>) -> Seq<char>
    decreases text.len(),
{
    if pattern.len() == 0 || text.len() < pattern.len() {
        text
    } else if occurs_at(text, pattern, 0) {
        with + substitute_spec(text.skip(pattern.len() as int), pattern, with)
    } else {
        seq![text[0]] + substitute_spec(text.skip(1), pattern, with)
    }
}

fn matches_at(text: &Vec<char>, pattern: &Vec<char>, at: usize) -> (r: bool)
    requires
        at + pattern@.len() <= text@.len(),
    ensures
        r == occurs_at(text@, pattern@, at as int),
{
    let n: usize = text.len();
    let mut k: usize = 0;
    while k < pattern.len()
        invariant
            k <= pattern@.len(),
            at + pattern@.len() <= text@.len() == n,
            forall|j: int| 0 <= j < k ==> text@[at + j] == #[trigger] pattern@[j],
        decreases pattern@.len() - k,
    {
        if text[at + k] != pattern[k] {
            return false;
        }
        k += 1;
    }
    true
}

/// Replaces each occurrence of `pattern` in `text` by `with`.
pub fn substitute(text: &str, pattern: &str, with: &str) -> (r: String)
    ensures
        r@ == substitute_spec(text@, pattern@, with@),
{
    let t = chars_of(text);
    let p = chars_of(pattern);
    let n: usize = t.len();
    let m: usize = p.len();
    if m == 0 || n < m {
        return String::from_str(text);
    }
    let mut out = String::new();
    let mut kept: usize = 0;
    let mut i: usize = 0;
    proof {
        assert(text@.skip(0) =~= text@);
        assert(out@ + text@.subrange(0, 0) + text@ =~= text@);
    }
    while i <= n - m
        invariant
            t@ == text@,
            p@ == pattern@,
            n == t@.len(),
            m == p@.len(),
            0 < m <= n,
            kept <= i <= n,
            substitute_spec(text@, pattern@, with@) == out@ + text@.subrange(kept as int, i as int)
                + substitute_spec(text@.skip(i as int), pattern@, with@),
        decreases n - i,
    {
        let ghost rest = text@.skip(i as int);
        let ghost before = out@;
        let ghost held = text@.subrange(kept as int, i as int);
        if matches_at(&t, &p, i) {
            let ghost tail = substitute_spec(text@.skip(i + m), pattern@, with@);
            proof {
                assert(occurs_at(rest, pattern@, 0)) by {
                    assert forall|k: int| 0 <= k < pattern@.len() implies rest[0 + k]
                        == #[trigger] pattern@[k] by {
                        assert(rest[k] == text@[i + k]);
                    }
                }
                assert(rest.skip(m as int) =~= text@.skip(i + m));
            }
            out.append(text.substring_char(kept, i));
            out.append(with);
            proof {
                assert(out@ + text@.subrange(i + m, i + m) + tail =~= before + held + (with@
                    + tail));
            }
            i += m;
            kept = i;
        } else {
            let ghost tail = substitute_spec(text@.skip(i + 1), pattern@, with@);
            proof {
                assert(!occurs_at(rest, pattern@, 0)) by {
                    if occurs_at(rest, pattern@, 0) {
                        assert forall|k: int| 0 <= k < pattern@.len() implies text@[i + k]
                            == #[trigger] pattern@[k] by {
                            assert(rest[0 + k] == pattern@[k]);
                        }
                    }
                }
                assert(rest.skip(1) =~= text@.skip(i + 1));
                assert(before + text@.subrange(kept as int, i + 1) + tail =~= before + held + (
                seq![rest[0]] + tail));
            }
            i += 1;
        }
    }
    proof {
        assert(out@ + text@.subrange(kept as int, i as int) + text@.skip(i as int) =~= out@
            + text@.subrange(kept as int, n as int));
    }
    out.append(text.substring_char(kept, n));
    out
}

} // verus!
