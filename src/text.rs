//! Text helpers: trimming, comma-separated fields, decimal magnitudes and
//! decimal rendering of integers.
use vstd::prelude::*;

verus! {

/// Unicode `White_Space`, the characters `char::is_whitespace` accepts.
pub open spec fn is_white(c: char) -> bool {
    ('\u{9}' <= c && c <= '\u{d}') || c == ' ' || c == '\u{85}' || c == '\u{a0}'
        || c == '\u{1680}' || ('\u{2000}' <= c && c <= '\u{200a}') || c == '\u{2028}'
        || c == '\u{2029}' || c == '\u{202f}' || c == '\u{205f}' || c == '\u{3000}'
}

/// `s` without its leading white space.
pub open spec fn trim_start(s: Seq<char>) -> Seq<char>
    decreases s.len(),
{
    if s.len() > 0 && is_white(s[0]) { trim_start(s.drop_first()) } else { s }
}

/// `s` without its trailing white space.
pub open spec fn trim_end(s: Seq<char>) -> Seq<char>
    decreases s.len(),
{
    if s.len() > 0 && is_white(s.last()) { trim_end(s.drop_last()) } else { s }
}

/// `s` without its leading and trailing white space.
pub open spec fn trimmed(s: Seq<char>) -> Seq<char> {
    trim_end(trim_start(s))
}

/// Whether `c` is white space.
pub fn white(c: char) -> (r: bool)
    ensures
        r == is_white(c),
{
    ('\u{9}' <= c && c <= '\u{d}') || c == ' ' || c == '\u{85}' || c == '\u{a0}'
        || c == '\u{1680}' || ('\u{2000}' <= c && c <= '\u{200a}') || c == '\u{2028}'
        || c == '\u{2029}' || c == '\u{202f}' || c == '\u{205f}' || c == '\u{3000}'
}

/// `s` without its leading and trailing white space.
pub fn trim(s: &str) -> (r: String)
    ensures
        r@ == trimmed(s@),
{
    let n = s.unicode_len();
    let mut start: usize = 0;
    proof {
        assert(s@.subrange(0, n as int) =~= s@);
    }
    while start < n
        invariant
            n == s@.len(),
            start <= n,
            trim_start(s@) == trim_start(s@.subrange(start as int, n as int)),
        ensures
            start <= n,
            trim_start(s@) == trim_start(s@.subrange(start as int, n as int)),
            start == n || !is_white(s@[start as int]),
        decreases n - start,
    {
        if !white(s.get_char(start)) {
            break;
        }
        proof {
            assert(s@.subrange(start as int, n as int).drop_first() =~= s@.subrange(start as int + 1, n as int));
        }
        start = start + 1;
    }
    let ghost rest = s@.subrange(start as int, n as int);
    proof {
        assert(trim_start(rest) == rest);
        assert(s@.subrange(start as int, n as int) =~= rest);
    }
    let mut end: usize = n;
    while end > start
        invariant
            n == s@.len(),
            start <= end <= n,
            rest == s@.subrange(start as int, n as int),
            trim_end(rest) == trim_end(s@.subrange(start as int, end as int)),
        ensures
            start <= end <= n,
            trim_end(rest) == trim_end(s@.subrange(start as int, end as int)),
            end == start || !is_white(s@[end as int - 1]),
        decreases end,
    {
        if !white(s.get_char(end - 1)) {
            break;
        }
        proof {
            assert(s@.subrange(start as int, end as int).drop_last() =~= s@.subrange(start as int, end as int - 1));
        }
        end = end - 1;
    }
    let r = s.substring_char(start, end).to_string();
    proof {
        assert(trim_end(s@.subrange(start as int, end as int)) == s@.subrange(start as int, end as int));
    }
    r
}

/// The fields of `s` between commas, in order; a text without a comma is one field.
pub open spec fn split_commas(s: Seq<char>) -> Seq<Seq<char>>
    decreases s.len(),
{
    if s.len() == 0 {
        seq![Seq::<char>::empty()]
    } else {
        let init = split_commas(s.drop_last());
        if s.last() == ',' {
            init.push(Seq::<char>::empty())
        } else {
            init.update(init.len() - 1, init.last().push(s.last()))
        }
    }
}

pub open spec fn strings_view(v: Seq<String>) -> Seq<Seq<char>> {
    v.map_values(|f: String| f@)
}

/// Splits `s` at every comma.
pub fn split_fields(s: &str) -> (r: Vec<String>)
    ensures
        strings_view(r@) == split_commas(s@),
{
    let n = s.unicode_len();
    let mut fields: Vec<String> = Vec::new();
    let mut start: usize = 0;
    let mut i: usize = 0;
    proof {
        assert(s@.take(0) =~= Seq::<char>::empty());
        assert(s@.subrange(0, 0) =~= Seq::<char>::empty());
        assert(strings_view(fields@).push(s@.subrange(0, 0)) =~= split_commas(s@.take(0)));
    }
    while i < n
        invariant
            n == s@.len(),
            start <= i <= n,
            strings_view(fields@).push(s@.subrange(start as int, i as int))
                == split_commas(s@.take(i as int)),
        decreases n - i,
    {
        let c = s.get_char(i);
        let ghost prev = strings_view(fields@);
        proof {
            assert(s@.take(i as int + 1).drop_last() =~= s@.take(i as int));
            assert(s@.take(i as int + 1).last() == c);
        }
        if c == ',' {
            let f = s.substring_char(start, i);
            fields.push(f.to_string());
            proof {
                assert(strings_view(fields@) =~= prev.push(f@));
                assert(s@.subrange(i as int + 1, i as int + 1) =~= Seq::<char>::empty());
                assert(strings_view(fields@).push(s@.subrange(i as int + 1, i as int + 1))
                    =~= split_commas(s@.take(i as int + 1)));
            }
            start = i + 1;
        } else {
            proof {
                let cur = prev.push(s@.subrange(start as int, i as int));
                assert(cur.len() - 1 == prev.len());
                assert(cur.last() == s@.subrange(start as int, i as int));
                assert(s@.subrange(start as int, i as int).push(c)
                    =~= s@.subrange(start as int, i as int + 1));
                assert(cur.update(cur.len() - 1, cur.last().push(c))
                    =~= prev.push(s@.subrange(start as int, i as int + 1)));
            }
        }
        i = i + 1;
    }
    proof {
        assert(s@.take(n as int) =~= s@);
    }
    let last = s.substring_char(start, n);
    let ghost before = strings_view(fields@);
    fields.push(last.to_string());
    proof {
        assert(strings_view(fields@) =~= before.push(last@));
    }
    fields
}

pub open spec fn is_digit(c: char) -> bool {
    '0' <= c && c <= '9'
}

/// Number of decimal points in `s`.
pub open spec fn dot_count(s: Seq<char>) -> nat
    decreases s.len(),
{
    if s.len() == 0 {
        0
    } else {
        dot_count(s.drop_last()) + if s.last() == '.' { 1nat } else { 0nat }
    }
}

/// A non-negative decimal number written with digits and at most one decimal
/// point, with a digit at each end (`12`, `12.50`).
pub open spec fn is_decimal_magnitude(s: Seq<char>) -> bool {
    &&& s.len() > 0
    &&& forall|i: int| 0 <= i < s.len() ==> is_digit(#[trigger] s[i]) || s[i] == '.'
    &&& dot_count(s) <= 1
    &&& is_digit(s[0])
    &&& is_digit(s.last())
}

/// Tells whether `s` is a decimal magnitude.
pub fn decimal_magnitude(s: &str) -> (r: bool)
    ensures
        r == is_decimal_magnitude(s@),
{
    let n = s.unicode_len();
    if n == 0 {
        return false;
    }
    let mut dots: usize = 0;
    let mut i: usize = 0;
    while i < n
        invariant
            n == s@.len(),
            i <= n,
            dots == dot_count(s@.take(i as int)),
            dots <= 1,
            forall|j: int| 0 <= j < i ==> is_digit(#[trigger] s@[j]) || s@[j] == '.',
        decreases n - i,
    {
        let c = s.get_char(i);
        proof {
            assert(s@.take(i as int + 1).drop_last() =~= s@.take(i as int));
        }
        if c == '.' {
            if dots == 1 {
                proof {
                    lemma_dot_count_prefix(s@, i as int + 1);
                }
                return false;
            }
            dots = dots + 1;
        } else if !('0' <= c && c <= '9') {
            return false;
        }
        i = i + 1;
    }
    proof {
        assert(s@.take(n as int) =~= s@);
    }
    let first = s.get_char(0);
    let last = s.get_char(n - 1);
    '0' <= first && first <= '9' && '0' <= last && last <= '9'
}

/// Points counted in a prefix never exceed those of the whole text.
proof fn lemma_dot_count_prefix(s: Seq<char>, k: int)
    requires
        0 <= k <= s.len(),
    ensures
        dot_count(s.take(k)) <= dot_count(s),
    decreases s.len() - k,
{
    if k < s.len() {
        lemma_dot_count_prefix(s, k + 1);
        assert(s.take(k + 1).drop_last() =~= s.take(k));
    } else {
        assert(s.take(k) =~= s);
    }
}

pub open spec fn digit_char(d: nat) -> char {
    if d == 0 { '0' }
    else if d == 1 { '1' }
    else if d == 2 { '2' }
    else if d == 3 { '3' }
    else if d == 4 { '4' }
    else if d == 5 { '5' }
    else if d == 6 { '6' }
    else if d == 7 { '7' }
    else if d == 8 { '8' }
    else { '9' }
}

/// Decimal digits of `n`, most significant first, without leading zeros.
pub open spec fn nat_text(n: nat) -> Seq<char>
    decreases n,
{
    if n < 10 {
        seq![digit_char(n)]
    } else {
        nat_text(n / 10).push(digit_char(n % 10))
    }
}

/// Decimal text of `i`, with a minus sign when it is negative.
pub open spec fn int_text(i: int) -> Seq<char> {
    if i < 0 {
        seq!['-'] + nat_text((-i) as nat)
    } else {
        nat_text(i as nat)
    }
}

fn digit_string(d: u64) -> (r: String)
    requires
        d < 10,
    ensures
        r@ == seq![digit_char(d as nat)],
{
    let lit = "0123456789";
    proof {
        reveal_strlit("0123456789");
    }
    let r = lit.substring_char(d as usize, d as usize + 1).to_string();
    proof {
        assert(r@ =~= seq![digit_char(d as nat)]);
    }
    r
}

/// Decimal text of `n`.
pub fn u64_text(n: u64) -> (r: String)
    ensures
        r@ == nat_text(n as nat),
{
    let mut m: u64 = n / 10;
    let mut acc = digit_string(n % 10);
    proof {
        if n >= 10 {
            assert(nat_text(n as nat) == nat_text(m as nat) + acc@);
        } else {
            assert(nat_text(n as nat) =~= Seq::<char>::empty() + acc@);
        }
    }
    while m > 0
        invariant
            nat_text(n as nat) == (if m == 0 { Seq::<char>::empty() } else { nat_text(m as nat) }) + acc@,
        decreases m,
    {
        let d = digit_string(m % 10);
        let ghost prev = acc@;
        acc = d.concat(acc.as_str());
        proof {
            let rest = if m / 10 == 0 { Seq::<char>::empty() } else { nat_text((m / 10) as nat) };
            if m >= 10 {
                assert(nat_text(m as nat) == nat_text((m / 10) as nat).push(digit_char((m % 10) as nat)));
            }
            assert(nat_text(m as nat) =~= rest + seq![digit_char((m % 10) as nat)]);
            assert(nat_text(m as nat) + prev =~= rest + acc@);
        }
        m = m / 10;
    }
    proof {
        assert(Seq::<char>::empty() + acc@ =~= acc@);
    }
    acc
}

/// Decimal text of `i`.
pub fn i32_text(i: i32) -> (r: String)
    ensures
        r@ == int_text(i as int),
{
    if i < 0 {
        let magnitude: i64 = -(i as i64);
        let digits = u64_text(magnitude as u64);
        let r = "-".to_string().concat(digits.as_str());
        proof {
            reveal_strlit("-");
        }
        r
    } else {
        u64_text(i as u64)
    }
}

} // verus!
