//! Character-sequence helpers shared by the rest of the library.

use vstd::prelude::*;
use vstd::string::*;

verus! {

/// `s` with every trailing occurrence of `c` removed.
pub open spec fn trim_end_char(s: Seq<char>, c: char) -> Seq<char>
    decreases s.len(),
{
    if s.len() > 0 && s.last() == c {
        trim_end_char(s.drop_last(), c)
    } else {
        s
    }
}

/// Removes every trailing '/' from `s`.
pub fn trim_end_slashes(s: &str) -> (r: String)
    ensures
        r@ == trim_end_char(s@, '/'),
{
    let n = s.unicode_len();
    let mut end: usize = n;
    assert(s@.subrange(0, n as int) =~= s@);
    while end > 0 && s.get_char(end - 1) == '/'
        invariant
            end <= n,
            n == s@.len(),
            trim_end_char(s@, '/') == trim_end_char(s@.subrange(0, end as int), '/'),
        decreases end,
    {
        assert(s@.subrange(0, end - 1) =~= s@.subrange(0, end as int).drop_last());
        end = end - 1;
    }
    String::from_str(s.substring_char(0, end))
}


/// The characters that Rust's `char::is_whitespace` accepts (Unicode White_Space).
pub open spec fn is_whitespace(c: char) -> bool {
    let u = c as u32;
    ||| u == 0x20
    ||| (0x09 <= u && u <= 0x0d)
    ||| u == 0x85
    ||| u == 0xa0
    ||| u == 0x1680
    ||| (0x2000 <= u && u <= 0x200a)
    ||| u == 0x2028
    ||| u == 0x2029
    ||| u == 0x202f
    ||| u == 0x205f
    ||| u == 0x3000
}

/// `s` without its leading whitespace.
pub open spec fn trim_start_ws(s: Seq<char>) -> Seq<char>
    decreases s.len(),
{
    if s.len() > 0 && is_whitespace(s[0]) {
        trim_start_ws(s.drop_first())
    } else {
        s
    }
}

/// `s` without its trailing whitespace.
pub open spec fn trim_end_ws(s: Seq<char>) -> Seq<char>
    decreases s.len(),
{
    if s.len() > 0 && is_whitespace(s.last()) {
        trim_end_ws(s.drop_last())
    } else {
        s
    }
}

/// `s` without leading and trailing whitespace, as `str::trim` gives it.
pub open spec fn trim_ws(s: Seq<char>) -> Seq<char> {
    trim_end_ws(trim_start_ws(s))
}

pub fn char_is_whitespace(c: char) -> (b: bool)
    ensures
        b == is_whitespace(c),
{
    let u = c as u32;
    u == 0x20 || (0x09 <= u && u <= 0x0d) || u == 0x85 || u == 0xa0 || u == 0x1680 || (0x2000
        <= u && u <= 0x200a) || u == 0x2028 || u == 0x2029 || u == 0x202f || u == 0x205f || u
        == 0x3000
}

/// Removes leading and trailing whitespace.
pub fn trim_whitespace(s: &str) -> (r: &str)
    ensures
        r@ == trim_ws(s@),
{
    let n = s.unicode_len();
    let mut start: usize = 0;
    assert(s@.subrange(0, n as int) =~= s@);
    while start < n && char_is_whitespace(s.get_char(start))
        invariant
            start <= n,
            n == s@.len(),
            trim_start_ws(s@) == trim_start_ws(s@.subrange(start as int, n as int)),
        decreases n - start,
    {
        assert(s@.subrange(start + 1, n as int) =~= s@.subrange(start as int, n as int).drop_first());
        start = start + 1;
    }
    let mut end: usize = n;
    while end > start && char_is_whitespace(s.get_char(end - 1))
        invariant
            start <= end <= n,
            n == s@.len(),
            trim_start_ws(s@) == s@.subrange(start as int, n as int),
            trim_end_ws(s@.subrange(start as int, n as int)) == trim_end_ws(
                s@.subrange(start as int, end as int),
            ),
        decreases end,
    {
        assert(s@.subrange(start as int, end - 1) =~= s@.subrange(
            start as int,
            end as int,
        ).drop_last());
        end = end - 1;
    }
    s.substring_char(start, end)
}

/// The character of the decimal digit `d`.
pub open spec fn digit_char(d: nat) -> char {
    (d + 48) as char
}

pub open spec fn is_digit(c: char) -> bool {
    48 <= c as u32 && c as u32 <= 57
}

pub open spec fn digit_value(c: char) -> nat {
    (c as u32 - 48) as nat
}

pub open spec fn all_digits(s: Seq<char>) -> bool {
    forall|i: int| 0 <= i < s.len() ==> is_digit(#[trigger] s[i])
}

/// The number that the decimal digits `s` denote.
pub open spec fn digits_value(s: Seq<char>) -> nat
    decreases s.len(),
{
    if s.len() == 0 {
        0
    } else {
        digits_value(s.drop_last()) * 10 + digit_value(s.last())
    }
}

/// What `str::parse::<u64>` gives for `s`: an optional '+' followed by at
/// least one decimal digit, whose value fits in 64 bits.
pub open spec fn parse_u64_spec(s: Seq<char>) -> Option<u64> {
    let ds = if s.len() > 0 && s[0] == '+' {
        s.drop_first()
    } else {
        s
    };
    if ds.len() > 0 && all_digits(ds) && digits_value(ds) <= u64::MAX {
        Some(digits_value(ds) as u64)
    } else {
        None
    }
}

/// The decimal rendering of `n`, without leading zeros.
pub open spec fn decimal(n: nat) -> Seq<char>
    decreases n,
{
    if n < 10 {
        seq![digit_char(n)]
    } else {
        decimal(n / 10).push(digit_char(n % 10))
    }
}

proof fn lemma_digits_value_prefix(s: Seq<char>, k: int)
    requires
        0 <= k <= s.len(),
    ensures
        digits_value(s.subrange(0, k)) <= digits_value(s),
    decreases s.len() - k,
{
    if k < s.len() {
        let t = s.subrange(0, k + 1);
        assert(t.drop_last() =~= s.subrange(0, k));
        lemma_digits_value_prefix(s, k + 1);
    } else {
        assert(s.subrange(0, k) =~= s);
    }
}

/// Parses a decimal `u64` as `str::parse::<u64>` does.
pub fn parse_u64(s: &str) -> (r: Option<u64>)
    ensures
        r == parse_u64_spec(s@),
{
    let n = s.unicode_len();
    if n == 0 {
        return None;
    }
    let start: usize = if s.get_char(0) == '+' {
        1
    } else {
        0
    };
    let ghost ds = if s@.len() > 0 && s@[0] == '+' {
        s@.drop_first()
    } else {
        s@
    };
    assert(ds =~= s@.subrange(start as int, n as int));
    if start == n {
        return None;
    }
    let mut i: usize = start;
    let mut acc: u64 = 0;
    assert(ds.subrange(0, 0) =~= Seq::<char>::empty());
    while i < n
        invariant
            start <= i <= n,
            start < n,
            n == s@.len(),
            ds == s@.subrange(start as int, n as int),
            ds == (if s@.len() > 0 && s@[0] == '+' {
                s@.drop_first()
            } else {
                s@
            }),
            all_digits(ds.subrange(0, i - start)),
            acc == digits_value(ds.subrange(0, i - start)),
        decreases n - i,
    {
        let c = s.get_char(i);
        let u = c as u32;
        let ghost k: int = i - start;
        if u < 48 || u > 57 {
            assert(!is_digit(ds[k]));
            return None;
        }
        let d = (u - 48) as u64;
        assert(ds.subrange(0, k + 1).drop_last() =~= ds.subrange(0, k));
        assert(digits_value(ds.subrange(0, k + 1)) == acc * 10 + d);
        proof {
            lemma_digits_value_prefix(ds, k + 1);
        }
        if acc > 1844674407370955161 || (acc == 1844674407370955161 && d > 5) {
            assert(acc * 10 + d > u64::MAX) by (nonlinear_arith)
                requires
                    acc > 1844674407370955161 || (acc == 1844674407370955161 && d > 5),
            ;
            return None;
        }
        acc = acc * 10 + d;
        assert(all_digits(ds.subrange(0, k + 1))) by {
            assert forall|j: int| 0 <= j < k + 1 implies is_digit(#[trigger] ds.subrange(0, k + 1)[j]) by {
                if j < k {
                    assert(ds.subrange(0, k + 1)[j] == ds.subrange(0, k)[j]);
                }
            }
        }
        i = i + 1;
    }
    assert(ds.subrange(0, n - start) =~= ds);
    Some(acc)
}


/// The one-character text of the decimal digit `d`.
fn digit_str(d: u64) -> (r: &'static str)
    requires
        d < 10,
    ensures
        r@ == seq![digit_char(d as nat)],
{
    proof {
        reveal_strlit("0");
        reveal_strlit("1");
        reveal_strlit("2");
        reveal_strlit("3");
        reveal_strlit("4");
        reveal_strlit("5");
        reveal_strlit("6");
        reveal_strlit("7");
        reveal_strlit("8");
        reveal_strlit("9");
    }
    let r = match d {
        0 => "0",
        1 => "1",
        2 => "2",
        3 => "3",
        4 => "4",
        5 => "5",
        6 => "6",
        7 => "7",
        8 => "8",
        _ => "9",
    };
    assert(r@ =~= seq![digit_char(d as nat)]);
    r
}

/// Renders `n` in decimal, as `u64`'s `Display` does.
pub fn decimal_string(n: u64) -> (r: String)
    ensures
        r@ == decimal(n as nat),
    decreases n,
{
    if n < 10 {
        String::from_str(digit_str(n))
    } else {
        let mut r = decimal_string(n / 10);
        r.append(digit_str(n % 10));
        r
    }
}

/// Every rendering is a nonempty run of digits whose value is the number.
pub proof fn lemma_decimal_digits(n: nat)
    ensures
        decimal(n).len() > 0,
        all_digits(decimal(n)),
        digits_value(decimal(n)) == n,
    decreases n,
{
    if n >= 10 {
        lemma_decimal_digits(n / 10);
        let d = decimal(n);
        assert(d.drop_last() =~= decimal(n / 10));
        assert forall|i: int| 0 <= i < d.len() implies is_digit(#[trigger] d[i]) by {
            if i < d.len() - 1 {
                assert(d[i] == decimal(n / 10)[i]);
            }
        }
        assert(d.last() == digit_char(n % 10));
        assert(digit_value(digit_char(n % 10)) == n % 10);
        assert(digits_value(d) == digits_value(decimal(n / 10)) * 10 + n % 10);
        assert(n == (n / 10) * 10 + n % 10) by (nonlinear_arith);
        assert(digits_value(d) == n);
    } else {
        let d = decimal(n);
        assert(d.drop_last() =~= Seq::<char>::empty());
        assert(digits_value(d.drop_last()) == 0);
        assert(digit_value(digit_char(n)) == n);
        assert(digits_value(d) == n);
    }
}

/// Parsing a rendering gives the number back.
pub proof fn lemma_parse_decimal(n: u64)
    ensures
        parse_u64_spec(decimal(n as nat)) == Some(n),
{
    lemma_decimal_digits(n as nat);
    assert(is_digit(decimal(n as nat)[0]));
}


/// A sequence that neither starts nor ends with whitespace is its own trim.
pub proof fn lemma_trim_unchanged(s: Seq<char>)
    requires
        s.len() > 0,
        !is_whitespace(s[0]),
        !is_whitespace(s.last()),
    ensures
        trim_ws(s) == s,
{
}

pub open spec fn all_whitespace(s: Seq<char>) -> bool {
    forall|i: int| 0 <= i < s.len() ==> is_whitespace(#[trigger] s[i])
}

proof fn lemma_trim_start_all_ws(w: Seq<char>)
    requires
        all_whitespace(w),
    ensures
        trim_start_ws(w) == Seq::<char>::empty(),
    decreases w.len(),
{
    if w.len() > 0 {
        assert(is_whitespace(w[0]));
        let t = w.drop_first();
        assert(all_whitespace(t)) by {
            assert forall|i: int| 0 <= i < t.len() implies is_whitespace(#[trigger] t[i]) by {
                assert(t[i] == w[i + 1]);
            }
        }
        lemma_trim_start_all_ws(t);
    } else {
        assert(w =~= Seq::<char>::empty());
    }
}

proof fn lemma_trim_start_prefix_ws(w: Seq<char>, x: Seq<char>)
    requires
        all_whitespace(w),
    ensures
        trim_start_ws(w + x) == trim_start_ws(x),
    decreases w.len(),
{
    if w.len() > 0 {
        let t = w.drop_first();
        assert(all_whitespace(t)) by {
            assert forall|i: int| 0 <= i < t.len() implies is_whitespace(#[trigger] t[i]) by {
                assert(t[i] == w[i + 1]);
            }
        }
        assert((w + x)[0] == w[0]);
        assert((w + x).drop_first() =~= t + x);
        lemma_trim_start_prefix_ws(t, x);
    } else {
        assert(w + x =~= x);
    }
}

proof fn lemma_trim_end_suffix_ws(x: Seq<char>, w: Seq<char>)
    requires
        all_whitespace(w),
    ensures
        trim_end_ws(x + w) == trim_end_ws(x),
    decreases w.len(),
{
    if w.len() > 0 {
        let t = w.drop_last();
        assert(all_whitespace(t)) by {
            assert forall|i: int| 0 <= i < t.len() implies is_whitespace(#[trigger] t[i]) by {
                assert(t[i] == w[i]);
            }
        }
        assert((x + w).last() == w.last());
        assert(is_whitespace(w[w.len() - 1]));
        assert((x + w).drop_last() =~= x + t);
        lemma_trim_end_suffix_ws(x, t);
    } else {
        assert(x + w =~= x);
    }
}

proof fn lemma_trim_ws_suffix(x: Seq<char>, w: Seq<char>)
    requires
        all_whitespace(w),
    ensures
        trim_ws(x + w) == trim_ws(x),
    decreases x.len(),
{
    if x.len() == 0 {
        assert(x + w =~= w);
        lemma_trim_start_all_ws(w);
        assert(trim_start_ws(x) == x);
    } else if is_whitespace(x[0]) {
        assert((x + w)[0] == x[0]);
        assert((x + w).drop_first() =~= x.drop_first() + w);
        lemma_trim_ws_suffix(x.drop_first(), w);
    } else {
        assert((x + w)[0] == x[0]);
        lemma_trim_end_suffix_ws(x, w);
    }
}

/// Whitespace around a text does not change its trim.
pub proof fn lemma_trim_ws_padding(w1: Seq<char>, s: Seq<char>, w2: Seq<char>)
    requires
        all_whitespace(w1),
        all_whitespace(w2),
    ensures
        trim_ws(w1 + s + w2) == trim_ws(s),
{
    lemma_trim_start_prefix_ws(w1, s + w2);
    assert(w1 + s + w2 =~= w1 + (s + w2));
    lemma_trim_ws_suffix(s, w2);
}


/// `k` copies of `c`.
pub open spec fn repeat_char(c: char, k: nat) -> Seq<char> {
    Seq::new(k, |i: int| c)
}

/// Trailing copies of `c` do not change the trimmed text.
pub proof fn lemma_trim_end_char_padding(s: Seq<char>, c: char, k: nat)
    ensures
        trim_end_char(s + repeat_char(c, k), c) == trim_end_char(s, c),
    decreases k,
{
    if k > 0 {
        let t = s + repeat_char(c, k);
        assert(t.last() == c);
        assert(t.drop_last() =~= s + repeat_char(c, (k - 1) as nat));
        lemma_trim_end_char_padding(s, c, (k - 1) as nat);
    } else {
        assert(s + repeat_char(c, k) =~= s);
    }
}

/// The trimmed text no longer ends with `c`, and trimming it again changes
/// nothing.
pub proof fn lemma_trim_end_char_done(s: Seq<char>, c: char)
    ensures
        trim_end_char(s, c).len() == 0 || trim_end_char(s, c).last() != c,
        trim_end_char(trim_end_char(s, c), c) == trim_end_char(s, c),
    decreases s.len(),
{
    if s.len() > 0 && s.last() == c {
        lemma_trim_end_char_done(s.drop_last(), c);
    }
}

} // verus!
