//! Text helpers: joining and comparing strings.

use vstd::prelude::*;
use vstd::string::*;

verus! {

/// `a` followed by `b`.
pub fn join(a: &str, b: &str) -> (r: String)
    ensures
        r@ == a@ + b@,
{
    let mut r = a.to_owned();
    r.append(b);
    r
}

/// Whether two strings have the same text.
pub fn same_text(a: &str, b: &str) -> (r: bool)
    ensures
        r == (a@ == b@),
{
    a.to_owned() == b.to_owned()
}

/// Whether `a` comes before `b` in the order of code points, in which a text
/// comes before every longer text that it starts.
pub open spec fn text_before(a: Seq<char>, b: Seq<char>) -> bool
    decreases a.len(),
{
    if b.len() == 0 {
        false
    } else if a.len() == 0 {
        true
    } else if a[0] == b[0] {
        text_before(a.skip(1), b.skip(1))
    } else {
        (a[0] as int) < (b[0] as int)
    }
}

/// Whether `a` comes before `b`.
pub fn is_before(a: &str, b: &str) -> (r: bool)
    ensures
        r == text_before(a@, b@),
{
    let n: usize = a.unicode_len();
    let m: usize = b.unicode_len();
    let mut k: usize = 0;
    proof {
        assert(a@.skip(0) =~= a@);
        assert(b@.skip(0) =~= b@);
    }
    while k < n && k < m
        invariant
            n == a@.len(),
            m == b@.len(),
            0 <= k <= n,
            k <= m,
            text_before(a@, b@) == text_before(a@.skip(k as int), b@.skip(k as int)),
        decreases n - k,
    {
        let x: char = a.get_char(k);
        let y: char = b.get_char(k);
        proof {
            assert(a@.skip(k as int)[0] == x);
            assert(b@.skip(k as int)[0] == y);
            assert(a@.skip(k as int).skip(1) =~= a@.skip(k as int + 1));
            assert(b@.skip(k as int).skip(1) =~= b@.skip(k as int + 1));
        }
        if x != y {
            return (x as u32) < (y as u32);
        }
        k += 1;
    }
    k == n && n < m
}

/// The order of texts is irreflexive and total.
pub proof fn lemma_text_order(a: Seq<char>, b: Seq<char>)
    ensures
        !text_before(a, a),
        text_before(a, b) || text_before(b, a) || a == b,
        !(text_before(a, b) && text_before(b, a)),
    decreases a.len(),
{
    if a.len() == 0 {
        if b.len() == 0 {
            assert(a =~= b);
        }
    } else if b.len() > 0 {
        lemma_text_order(a.skip(1), b.skip(1));
        if a[0] == b[0] && a.skip(1) == b.skip(1) {
            assert(a =~= seq![a[0]] + a.skip(1));
            assert(b =~= seq![b[0]] + b.skip(1));
        }
    } else {
        lemma_text_order(a.skip(1), b);
    }
}

/// The order of texts is transitive.
pub proof fn lemma_text_order_transitive(a: Seq<char>, b: Seq<char>, c: Seq<char>)
    requires
        text_before(a, b),
        text_before(b, c),
    ensures
        text_before(a, c),
    decreases a.len(),
{
    if a.len() > 0 && b.len() > 0 && c.len() > 0 {
        if a[0] == b[0] && b[0] == c[0] {
            lemma_text_order_transitive(a.skip(1), b.skip(1), c.skip(1));
        }
    }
}

// ---------------------------------------------------------------------------
// Numbers
// ---------------------------------------------------------------------------

/// The digit of a number below ten.
pub open spec fn digit(d: int) -> char {
    (48 + d) as char
}

/// Decimal digits without leading zeros.
pub open spec fn decimal(n: nat) -> Seq<char>
    decreases n,
{
    if n < 10 {
        seq![digit(n as int)]
    } else {
        decimal(n / 10).push(digit((n % 10) as int))
    }
}

/// The number that a sequence of digits denotes.
pub open spec fn number(s: Seq<char>) -> int
    decreases s.len(),
{
    if s.len() == 0 {
        0
    } else {
        number(s.drop_last()) * 10 + (s.last() as int - 48)
    }
}

/// Every character is a digit.
pub open spec fn all_digits(s: Seq<char>) -> bool {
    forall|i: int| 0 <= i < s.len() ==> 48 <= (#[trigger] s[i]) as int <= 57
}

fn digit_text(d: u64) -> (r: &'static str)
    requires
        d < 10,
    ensures
        r@ == seq![digit(d as int)],
{
    proof {
        reveal_strlit("0");
        reveal_strlit("1");
        reveal_strlit("2");
        reveal_strlit("3");
        reveal_strlit("4");
        reveal_strlit("5");
        reveal_strlit("6");
        reveal_strlit("7");
        reveal_strlit("8");
        reveal_strlit("9");
    }
    let r = if d == 0 {
        "0"
    } else if d == 1 {
        "1"
    } else if d == 2 {
        "2"
    } else if d == 3 {
        "3"
    } else if d == 4 {
        "4"
    } else if d == 5 {
        "5"
    } else if d == 6 {
        "6"
    } else if d == 7 {
        "7"
    } else if d == 8 {
        "8"
    } else {
        "9"
    };
    proof {
        assert(r@ =~= seq![digit(d as int)]);
    }
    r
}

/// A number in decimal.
pub fn decimal_text(n: u64) -> (r: String)
    ensures
        r@ == decimal(n as nat),
    decreases n,
{
    if n < 10 {
        digit_text(n).to_owned()
    } else {
        let head = decimal_text(n / 10);
        let r = join(head.as_str(), digit_text(n % 10));
        proof {
            assert(r@ =~= decimal(n as nat));
        }
        r
    }
}

pub open spec fn zeros(n: nat) -> Seq<char> {
    Seq::new(n, |i: int| '0')
}

/// At least `width` digits, with leading zeros.
pub open spec fn padded(n: nat, width: nat) -> Seq<char> {
    if decimal(n).len() >= width {
        decimal(n)
    } else {
        zeros((width - decimal(n).len()) as nat) + decimal(n)
    }
}

/// At least `width` characters, with leading zeros behind the sign.
pub open spec fn padded_signed(n: int, width: nat) -> Seq<char> {
    if n < 0 {
        "-"@ + padded((-n) as nat, if width == 0 {
            0
        } else {
            (width - 1) as nat
        })
    } else {
        padded(n as nat, width)
    }
}

fn zeros_text(n: usize) -> (r: String)
    ensures
        r@ == zeros(n as nat),
{
    let mut out = String::new();
    let mut k: usize = 0;
    proof {
        assert(out@ =~= zeros(0));
    }
    while k < n
        invariant
            0 <= k <= n,
            out@ == zeros(k as nat),
        decreases n - k,
    {
        out = join(out.as_str(), "0");
        proof {
            reveal_strlit("0");
            assert(out@ =~= zeros((k + 1) as nat));
        }
        k += 1;
    }
    out
}

/// A number with at least `width` digits.
pub fn padded_text(n: u64, width: usize) -> (r: String)
    ensures
        r@ == padded(n as nat, width as nat),
{
    let digits = decimal_text(n);
    let len: usize = digits.as_str().unicode_len();
    if len >= width {
        digits
    } else {
        let head = zeros_text(width - len);
        join(head.as_str(), digits.as_str())
    }
}

/// A signed number with at least `width` characters.
pub fn padded_signed_text(n: i64, width: usize) -> (r: String)
    ensures
        r@ == padded_signed(n as int, width as nat),
{
    if n < 0 {
        let magnitude: u64 = (-(n as i128)) as u64;
        let digits = padded_text(
            magnitude,
            if width == 0 {
                0
            } else {
                width - 1
            },
        );
        join("-", digits.as_str())
    } else {
        padded_text(n as u64, width)
    }
}

/// A signed number in decimal.
pub open spec fn signed_decimal(n: int) -> Seq<char> {
    if n < 0 {
        "-"@ + decimal((-n) as nat)
    } else {
        decimal(n as nat)
    }
}

pub fn signed_decimal_text(n: i64) -> (r: String)
    ensures
        r@ == signed_decimal(n as int),
{
    if n < 0 {
        let magnitude: u64 = (-(n as i128)) as u64;
        let digits = decimal_text(magnitude);
        join("-", digits.as_str())
    } else {
        decimal_text(n as u64)
    }
}

/// Decimal digits denote the number that they were made of.
pub proof fn lemma_decimal_denotes(n: nat)
    ensures
        number(decimal(n)) == n,
        all_digits(decimal(n)),
        decimal(n).len() > 0,
    decreases n,
{
    if n < 10 {
        assert(decimal(n).drop_last() =~= seq![]);
        assert(number(decimal(n)) == n) by {
            reveal_with_fuel(number, 2);
        }
    } else {
        lemma_decimal_denotes(n / 10);
        let d = decimal(n);
        assert(d.drop_last() =~= decimal(n / 10));
        assert(number(d) == number(decimal(n / 10)) * 10 + (n % 10) as int);
    }
}

/// Distinct numbers have distinct decimal digits.
pub proof fn lemma_decimal_injective(a: nat, b: nat)
    requires
        decimal(a) == decimal(b),
    ensures
        a == b,
{
    lemma_decimal_denotes(a);
    lemma_decimal_denotes(b);
}

proof fn lemma_number_ignores_leading_zeros(z: nat, s: Seq<char>)
    ensures
        number(zeros(z) + s) == number(s),
    decreases z + s.len(),
{
    let t = zeros(z) + s;
    if s.len() > 0 {
        assert(t.drop_last() =~= zeros(z) + s.drop_last());
        lemma_number_ignores_leading_zeros(z, s.drop_last());
    } else if z > 0 {
        assert(t.drop_last() =~= zeros((z - 1) as nat) + s);
        lemma_number_ignores_leading_zeros((z - 1) as nat, s);
        assert(t.last() == '0');
    } else {
        assert(t =~= s);
    }
}

/// Leading zeros do not make distinct numbers look the same.
pub proof fn lemma_padded_injective(a: nat, b: nat, width: nat)
    requires
        padded(a, width) == padded(b, width),
    ensures
        a == b,
{
    lemma_padded_denotes(a, width);
    lemma_padded_denotes(b, width);
}

proof fn lemma_padded_denotes(n: nat, width: nat)
    ensures
        number(padded(n, width)) == n,
{
    lemma_decimal_denotes(n);
    if decimal(n).len() < width {
        lemma_number_ignores_leading_zeros((width - decimal(n).len()) as nat, decimal(n));
    }
}

/// Zeros behind a sign do not make distinct numbers look the same, and hold
/// no bar.
pub proof fn lemma_padded_signed_injective(a: int, b: int, width: nat)
    ensures
        padded_signed(a, width) == padded_signed(b, width) ==> a == b,
        bar_free(padded_signed(a, width)),
{
    reveal_strlit("-");
    let less = if width == 0 {
        0
    } else {
        (width - 1) as nat
    };
    let (x, y) = (padded_signed(a, width), padded_signed(b, width));
    let m = if a < 0 {
        -a
    } else {
        a
    };
    let n = if b < 0 {
        -b
    } else {
        b
    };
    lemma_padded_digits(m as nat, width);
    lemma_padded_digits(m as nat, less);
    lemma_padded_digits(n as nat, width);
    lemma_padded_digits(n as nat, less);
    assert forall|i: int| 0 <= i < x.len() implies #[trigger] x[i] != '|' by {
        if a < 0 {
            if i == 0 {
                assert(x[0] == '-');
            } else {
                assert(x[i] == padded(m as nat, less)[i - 1]);
            }
        } else {
            assert(x[i] == padded(m as nat, width)[i]);
        }
    }
    if x == y {
        if a < 0 && b < 0 {
            assert(x.skip(1) =~= padded(m as nat, less));
            assert(y.skip(1) =~= padded(n as nat, less));
            lemma_padded_injective(m as nat, n as nat, less);
        } else if a < 0 {
            assert(x[0] == '-');
            assert(y[0] == padded(n as nat, width)[0]);
        } else if b < 0 {
            assert(y[0] == '-');
            assert(x[0] == padded(m as nat, width)[0]);
        } else {
            lemma_padded_injective(m as nat, n as nat, width);
        }
    }
}

proof fn lemma_padded_digits(n: nat, width: nat)
    ensures
        all_digits(padded(n, width)),
        padded(n, width).len() > 0,
{
    lemma_decimal_denotes(n);
    if decimal(n).len() < width {
        let z = zeros((width - decimal(n).len()) as nat);
        assert forall|i: int| 0 <= i < padded(n, width).len() implies 48 <= (#[trigger] padded(
            n,
            width,
        )[i]) as int <= 57 by {
            if i < z.len() {
                assert(padded(n, width)[i] == '0');
            } else {
                assert(padded(n, width)[i] == decimal(n)[i - z.len()]);
            }
        }
    }
}

// ---------------------------------------------------------------------------
// Searching and splitting
// ---------------------------------------------------------------------------

/// Whether `part` stands in `s` from position `i` on.
pub open spec fn stands_at(s: Seq<char>, part: Seq<char>, i: int) -> bool {
    0 <= i && i + part.len() <= s.len() && s.subrange(i, i + part.len()) == part
}

/// Whether `part` stands somewhere in `s`.
pub fn contains_text(s: &str, part: &str) -> (r: bool)
    ensures
        r == exists|i: int| #[trigger] stands_at(s@, part@, i),
{
    let n: usize = s.unicode_len();
    let m: usize = part.unicode_len();
    if m > n {
        return false;
    }
    let mut k: usize = 0;
    while k <= n - m
        invariant
            n == s@.len(),
            m == part@.len(),
            m <= n,
            0 <= k <= n - m + 1,
            forall|i: int| 0 <= i < k ==> !#[trigger] stands_at(s@, part@, i),
        decreases n - m + 1 - k,
    {
        if same_text(s.substring_char(k, k + m), part) {
            assert(stands_at(s@, part@, k as int));
            return true;
        }
        if k == n - m {
            assert forall|i: int| !#[trigger] stands_at(s@, part@, i) by {
                if i < k {
                } else if i > k {
                }
            }
            return false;
        }
        k += 1;
    }
    false
}

/// The pieces of `s` between bars.
pub open spec fn bar_split(s: Seq<char>) -> Seq<Seq<char>>
    decreases s.len(),
{
    if s.len() == 0 {
        seq![seq![]]
    } else {
        let rest = bar_split(s.drop_last());
        if s.last() == '|' {
            rest.push(seq![])
        } else {
            rest.update(rest.len() - 1, rest.last().push(s.last()))
        }
    }
}

pub proof fn lemma_bar_split_nonempty(s: Seq<char>)
    ensures
        bar_split(s).len() > 0,
    decreases s.len(),
{
    if s.len() > 0 {
        lemma_bar_split_nonempty(s.drop_last());
    }
}

pub open spec fn views_of(v: Seq<String>) -> Seq<Seq<char>> {
    Seq::new(v.len(), |i: int| v[i]@)
}

/// The pieces of a text between bars.
pub fn split_bars(s: &str) -> (r: Vec<String>)
    ensures
        views_of(r@) == bar_split(s@),
{
    let n: usize = s.unicode_len();
    let mut out: Vec<String> = Vec::new();
    let mut start: usize = 0;
    let mut k: usize = 0;
    proof {
        assert(s@.take(0) =~= seq![]);
        assert(s@.subrange(0, 0) =~= seq![]);
        assert(views_of(out@).push(s@.subrange(0, 0)) =~= bar_split(s@.take(0)));
    }
    while k < n
        invariant
            n == s@.len(),
            0 <= start <= k <= n,
            views_of(out@).push(s@.subrange(start as int, k as int)) == bar_split(
                s@.take(k as int),
            ),
        decreases n - k,
    {
        let c: char = s.get_char(k);
        proof {
            assert(s@.take(k as int + 1).drop_last() =~= s@.take(k as int));
            assert(s@.take(k as int + 1).last() == c);
        }
        if c == '|' {
            let ghost before = out@;
            out.push(s.substring_char(start, k).to_owned());
            proof {
                assert(views_of(out@) =~= views_of(before).push(
                    s@.subrange(start as int, k as int),
                ));
                assert(s@.subrange(k as int + 1, k as int + 1) =~= seq![]);
            }
            start = k + 1;
        } else {
            proof {
                let rest = bar_split(s@.take(k as int));
                assert(s@.subrange(start as int, k as int + 1) =~= s@.subrange(
                    start as int,
                    k as int,
                ).push(c));
                assert(views_of(out@).push(s@.subrange(start as int, k as int + 1)) =~= rest.update(
                    rest.len() - 1,
                    rest.last().push(c),
                ));
            }
        }
        k += 1;
    }
    let ghost before = out@;
    out.push(s.substring_char(start, n).to_owned());
    proof {
        assert(s@.take(n as int) =~= s@);
        assert(views_of(out@) =~= views_of(before).push(s@.subrange(start as int, n as int)));
    }
    out
}

/// No bar in the text.
pub open spec fn bar_free(s: Seq<char>) -> bool {
    forall|i: int| 0 <= i < s.len() ==> #[trigger] s[i] != '|'
}

/// Appending a text without bars extends the last piece.
pub proof fn lemma_bar_split_extend(s: Seq<char>, t: Seq<char>)
    requires
        bar_free(t),
    ensures
        bar_split(s + t) == bar_split(s).update(
            bar_split(s).len() - 1,
            bar_split(s).last() + t,
        ),
    decreases t.len(),
{
    lemma_bar_split_nonempty(s);
    let p = bar_split(s);
    if t.len() == 0 {
        assert(s + t =~= s);
        assert(p.last() + t =~= p.last());
        assert(p.update(p.len() - 1, p.last()) =~= p);
    } else {
        let u = t.drop_last();
        lemma_bar_split_extend(s, u);
        assert((s + t).drop_last() =~= s + u);
        assert((s + t).last() == t.last());
        assert(t[t.len() - 1] != '|');
        let q = bar_split(s + u);
        assert(q.last() == p.last() + u);
        assert((p.last() + u).push(t.last()) =~= p.last() + t);
        assert(bar_split(s + t) =~= p.update(p.len() - 1, p.last() + t));
    }
}

/// A bar starts a new, empty piece.
pub proof fn lemma_bar_split_bar(s: Seq<char>)
    ensures
        bar_split(s + seq!['|']) == bar_split(s).push(seq![]),
{
    assert((s + seq!['|']).drop_last() =~= s);
}

} // verus!
