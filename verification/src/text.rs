//! Text building blocks: repeated characters, decimal numbers, and the
//! order of texts.

use vstd::prelude::*;

verus! {

/// `n` copies of a character.
pub open spec fn repeat(c: char, n: nat) -> Seq<char> {
    Seq::new(n, |_i: int| c)
}

/// The character of a decimal digit.
pub open spec fn digit(d: nat) -> char {
    (48 + d) as char
}

/// The decimal representation of a number, most significant digit first.
pub open spec fn decimal_text(n: nat) -> Seq<char>
    decreases n,
{
    if n < 10 {
        seq![digit(n)]
    } else {
        decimal_text(n / 10).push(digit(n % 10))
    }
}

/// The number that a text of decimal digits stands for.
pub open spec fn digits_value(t: Seq<char>) -> int
    decreases t.len(),
{
    if t.len() == 0 {
        0
    } else {
        digits_value(t.drop_last()) * 10 + (t.last() as int - '0' as int)
    }
}

/// The decimal text of a number is made of the digits `0` to `9`, starts
/// with a digit other than `0` unless the number is zero, and reads back as
/// the number.
pub proof fn law_decimal_reads_back(n: nat)
    ensures
        decimal_text(n).len() > 0,
        forall|k: int| 0 <= k < decimal_text(n).len() ==> '0' <= #[trigger] decimal_text(n)[k] <= '9',
        n > 0 ==> decimal_text(n)[0] != '0',
        digits_value(decimal_text(n)) == n,
    decreases n,
{
    if n < 10 {
        assert(digit(n) as int == 48 + n);
        assert('0' as int == 48);
        assert(decimal_text(n).drop_last() =~= Seq::<char>::empty());
        assert(digits_value(decimal_text(n)) == digits_value(Seq::<char>::empty()) * 10 + (digit(n) as int - 48));
    } else {
        law_decimal_reads_back(n / 10);
        let t = decimal_text(n / 10);
        assert(digit(n % 10) as int == 48 + n % 10);
        assert(decimal_text(n).drop_last() =~= t);
        assert(decimal_text(n)[0] == t[0]);
        assert((n / 10) * 10 + n % 10 == n) by (nonlinear_arith);
        assert('0' as int == 48);
        assert(decimal_text(n).last() == digit(n % 10));
        assert(digits_value(decimal_text(n)) == digits_value(t) * 10 + (digit(n % 10) as int - 48));
        assert forall|k: int| 0 <= k < decimal_text(n).len() implies '0' <= #[trigger] decimal_text(n)[k] <= '9' by {
            if k < t.len() {
                assert(decimal_text(n)[k] == t[k]);
            }
        }
    }
}

/// The number of bytes of a text in UTF-8.
pub open spec fn byte_len(t: Seq<char>) -> nat {
    vstd::utf8::encode_utf8(t).len()
}

/// The length of a text as `str::len` reports it: its length in bytes.
pub open spec fn str_len(t: Seq<char>) -> usize {
    byte_len(t) as usize
}

/// The width a text takes on screen as the widgets measure it: its length in
/// bytes, cut to a unit.
pub open spec fn text_width(t: Seq<char>) -> u16 {
    str_len(t) as u16
}

/// The width a text takes on screen as the widgets measure it.
pub fn width_of(t: &str) -> (r: u16)
    ensures
        r == text_width(t@),
{
    #[verifier::truncate]
    (t.len() as u16)
}

/// A string of `n` copies of the one character of `c`.
pub fn repeat_char(c: &str, n: usize) -> (r: String)
    requires
        c@.len() == 1,
    ensures
        r@ == repeat(c@[0], n as nat),
{
    let mut out = String::new();
    let mut i: usize = 0;
    while i < n
        invariant
            i <= n,
            c@.len() == 1,
            out@ == repeat(c@[0], i as nat),
        decreases n - i,
    {
        out.append(c);
        i = i + 1;
        assert(out@ =~= repeat(c@[0], i as nat));
    }
    out
}

/// The text of one decimal digit.
fn digit_str(d: u64) -> (r: &'static str)
    requires
        d < 10,
    ensures
        r@ == seq![digit(d as nat)],
{
    proof {
        reveal_strlit("0");
        reveal_strlit("1");
        reveal_strlit("2");
        reveal_strlit("3");
        reveal_strlit("4");
        reveal_strlit("5");
        reveal_strlit("6");
        reveal_strlit("7");
        reveal_strlit("8");
        reveal_strlit("9");
    }
    match d {
        0 => "0",
        1 => "1",
        2 => "2",
        3 => "3",
        4 => "4",
        5 => "5",
        6 => "6",
        7 => "7",
        8 => "8",
        _ => "9",
    }
}

/// The decimal representation of a number, most significant digit first.
pub(crate) fn decimal(n: u64) -> (r: String)
    ensures
        r@ == decimal_text(n as nat),
    decreases n,
{
    if n < 10 {
        String::from_str(digit_str(n))
    } else {
        let mut out = decimal(n / 10);
        out.append(digit_str(n % 10));
        out
    }
}

/// The order of texts, character by character, as their UTF-8 bytes order
/// them: a text comes no later than another that it starts, and otherwise the
/// first character in which they differ decides.
pub open spec fn text_le(a: Seq<char>, b: Seq<char>) -> bool
    decreases a.len(),
{
    if a.len() == 0 {
        true
    } else if b.len() == 0 {
        false
    } else if a[0] != b[0] {
        a[0] < b[0]
    } else {
        text_le(a.drop_first(), b.drop_first())
    }
}

/// Every text comes no later than itself.
pub proof fn lemma_text_le_reflexive(a: Seq<char>)
    ensures
        text_le(a, a),
    decreases a.len(),
{
    if a.len() > 0 {
        lemma_text_le_reflexive(a.drop_first());
    }
}

/// Of two texts, one comes no later than the other.
pub proof fn lemma_text_le_total(a: Seq<char>, b: Seq<char>)
    ensures
        text_le(a, b) || text_le(b, a),
    decreases a.len(),
{
    if a.len() > 0 && b.len() > 0 && a[0] == b[0] {
        lemma_text_le_total(a.drop_first(), b.drop_first());
    }
}

/// Two texts that each come no later than the other are the same text.
pub proof fn lemma_text_le_antisymmetric(a: Seq<char>, b: Seq<char>)
    requires
        text_le(a, b),
        text_le(b, a),
    ensures
        a == b,
    decreases a.len(),
{
    if a.len() > 0 {
        lemma_text_le_antisymmetric(a.drop_first(), b.drop_first());
        assert(a =~= seq![a[0]] + a.drop_first());
        assert(b =~= seq![b[0]] + b.drop_first());
    } else {
        assert(b.len() == 0);
        assert(a =~= b);
    }
}

/// The order of texts is transitive.
pub proof fn lemma_text_le_transitive(a: Seq<char>, b: Seq<char>, c: Seq<char>)
    requires
        text_le(a, b),
        text_le(b, c),
    ensures
        text_le(a, c),
    decreases a.len(),
{
    if a.len() > 0 && b.len() > 0 && c.len() > 0 && a[0] == b[0] && b[0] == c[0] {
        lemma_text_le_transitive(a.drop_first(), b.drop_first(), c.drop_first());
    }
}

/// Whether `a` comes no later than `b`.
pub fn text_before_or_same(a: &str, b: &str) -> (r: bool)
    ensures
        r == text_le(a@, b@),
{
    let n = a.unicode_len();
    let m = b.unicode_len();
    let mut i: usize = 0;
    assert(a@.skip(0) =~= a@);
    assert(b@.skip(0) =~= b@);
    while i < n && i < m
        invariant
            i <= n,
            i <= m,
            n == a@.len(),
            m == b@.len(),
            text_le(a@, b@) == text_le(a@.skip(i as int), b@.skip(i as int)),
        decreases n - i,
    {
        let c = a.get_char(i);
        let d = b.get_char(i);
        assert(a@.skip(i as int)[0] == c);
        assert(b@.skip(i as int)[0] == d);
        if c != d {
            return c < d;
        }
        assert(a@.skip(i as int).drop_first() =~= a@.skip(i + 1));
        assert(b@.skip(i as int).drop_first() =~= b@.skip(i + 1));
        i = i + 1;
    }
    i == n
}

/// The texts of strings, in order.
pub open spec fn views(s: Seq<String>) -> Seq<Seq<char>> {
    s.map_values(|x: String| x@)
}

/// Each text comes no later than the ones after it.
pub open spec fn sorted_texts(s: Seq<Seq<char>>) -> bool {
    forall|i: int, j: int| 0 <= i < j < s.len() ==> text_le(#[trigger] s[i], #[trigger] s[j])
}

/// The strings, in the order of their texts.
pub fn sort_texts(v: &Vec<String>) -> (r: Vec<String>)
    ensures
        views(r@).to_multiset() == views(v@).to_multiset(),
        sorted_texts(views(r@)),
{
    let mut out: Vec<String> = Vec::new();
    let mut i: usize = 0;
    assert(views(out@) =~= views(v@.subrange(0, 0)));
    while i < v.len()
        invariant
            i <= v.len(),
            views(out@).to_multiset() == views(v@.subrange(0, i as int)).to_multiset(),
            sorted_texts(views(out@)),
        decreases v.len() - i,
    {
        let x = v[i].clone();
        let mut j: usize = 0;
        while j < out.len() && text_before_or_same(out[j].as_str(), x.as_str())
            invariant
                j <= out.len(),
                i < v.len(),
                x@ == v@[i as int]@,
                forall|q: int| 0 <= q < j ==> text_le(#[trigger] views(out@)[q], x@),
            decreases out.len() - j,
        {
            j = j + 1;
        }
        proof {
            let w = views(out@);
            if j < out.len() {
                lemma_text_le_total(w[j as int], x@);
            }
            assert forall|k: int| j <= k < w.len() implies text_le(x@, #[trigger] w[k]) by {
                if k > j {
                    lemma_text_le_transitive(x@, w[j as int], w[k]);
                }
            }
            assert(views(out@.insert(j as int, x)) =~= w.insert(j as int, x@));
            vstd::seq_lib::to_multiset_insert(w, j as int, x@);
            assert(views(v@.subrange(0, i + 1)) =~= views(v@.subrange(0, i as int)).push(v@[i as int]@));
            vstd::seq_lib::to_multiset_build(views(v@.subrange(0, i as int)), v@[i as int]@);
        }
        let ghost before = views(out@);
        out.insert(j, x);
        proof {
            let w = views(out@);
            assert forall|a: int, b: int| 0 <= a < b < w.len() implies text_le(#[trigger] w[a], #[trigger] w[b]) by {
                if b < j {
                    assert(w[a] == before[a] && w[b] == before[b]);
                } else if b == j {
                    assert(w[a] == before[a]);
                } else if a == j {
                    assert(w[b] == before[b - 1]);
                } else if a < j {
                    assert(w[a] == before[a] && w[b] == before[b - 1]);
                    lemma_text_le_transitive(w[a], x@, w[b]);
                } else {
                    assert(w[a] == before[a - 1] && w[b] == before[b - 1]);
                }
            }
        }
        i = i + 1;
    }
    assert(v@.subrange(0, v.len() as int) =~= v@);
    out
}

} // verus!
