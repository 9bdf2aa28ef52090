//! Small text routines the rest of the library is built on: decimal
//! rendering, decimal parsing, digit checks and substring search.
use vstd::prelude::*;

verus! {

/// `c` is one of the ASCII digits `'0'..='9'`.
pub open spec fn is_ascii_digit(c: char) -> bool {
    '0' <= c && c <= '9'
}

/// Every character of `s` is an ASCII digit.
pub open spec fn all_ascii_digits(s: Seq<char>) -> bool {
    forall|i: int| 0 <= i < s.len() ==> is_ascii_digit(#[trigger] s[i])
}

/// The character that spells the decimal digit `d` (for `d < 10`).
pub open spec fn digit_char(d: nat) -> char {
    (d + 48) as char
}

/// The numeric value of an ASCII digit.
pub open spec fn digit_value(c: char) -> nat {
    (c as int - 48) as nat
}

/// The shortest decimal spelling of `n`, without sign or padding.
pub open spec fn decimal_text(n: nat) -> Seq<char>
    decreases n,
{
    if n < 10 {
        seq![digit_char(n)]
    } else {
        decimal_text(n / 10).push(digit_char(n % 10))
    }
}

/// `decimal_text(n)` left-padded with `'0'` up to `width` characters.
pub open spec fn zero_padded(n: nat, width: nat) -> Seq<char> {
    let d = decimal_text(n);
    if d.len() < width {
        Seq::new((width - d.len()) as nat, |_i: int| '0') + d
    } else {
        d
    }
}

/// The value of a non-empty run of decimal digits, most significant first.
pub open spec fn decimal_value(s: Seq<char>) -> nat
    decreases s.len(),
{
    if s.len() == 0 {
        0
    } else {
        decimal_value(s.drop_last()) * 10 + digit_value(s.last())
    }
}

/// What `str::parse::<usize>` yields: an optional leading `'+'`, then one
/// or more decimal digits whose value fits in a `usize`.
pub open spec fn usize_from_text(s: Seq<char>) -> Option<nat> {
    let digits = if s.len() > 0 && s[0] == '+' {
        s.drop_first()
    } else {
        s
    };
    if digits.len() == 0 || !all_ascii_digits(digits) {
        None
    } else if decimal_value(digits) > usize::MAX {
        None
    } else {
        Some(decimal_value(digits))
    }
}

/// `needle` occurs in `hay` as a contiguous run of characters.
pub open spec fn contains_text(hay: Seq<char>, needle: Seq<char>) -> bool {
    exists|i: int| 0 <= i <= hay.len() - needle.len() && #[trigger] hay.subrange(i, i + needle.len()) == needle
}

/// Unicode lower-casing as `str::to_lowercase` performs it.
pub uninterp spec fn lowercase(s: Seq<char>) -> Seq<char>;

proof fn lemma_decimal_text_digits(n: nat)
    ensures
        all_ascii_digits(decimal_text(n)),
        decimal_text(n).len() >= 1,
    decreases n,
{
    if n >= 10 {
        lemma_decimal_text_digits(n / 10);
        let p = decimal_text(n / 10);
        assert forall|i: int| 0 <= i < decimal_text(n).len() implies is_ascii_digit(
            #[trigger] decimal_text(n)[i],
        ) by {
            if i < p.len() {
                assert(decimal_text(n)[i] == p[i]);
            }
        }
    }
}

/// Every character of a decimal rendering is an ASCII digit.
pub proof fn lemma_decimal_text_is_digits(n: nat)
    ensures
        all_ascii_digits(decimal_text(n)),
        decimal_text(n).len() >= 1,
{
    lemma_decimal_text_digits(n);
}

/// A number below `10^k` has at most `k` decimal digits.
pub proof fn lemma_decimal_text_len(n: nat, k: nat, bound: int)
    requires
        n < bound,
        bound == vstd::arithmetic::power::pow(10, k),
        k >= 1,
    ensures
        decimal_text(n).len() <= k,
    decreases k,
{
    reveal(vstd::arithmetic::power::pow);
    if n >= 10 {
        assert(k >= 2) by {
            if k == 1 {
                assert(vstd::arithmetic::power::pow(10, 0) == 1);
            }
        }
        let b2: int = vstd::arithmetic::power::pow(10, (k - 1) as nat);
        assert(bound == 10 * b2);
        assert(n / 10 < b2);
        lemma_decimal_text_len(n / 10, (k - 1) as nat, b2);
    }
}

proof fn lemma_decimal_value_of_text(n: nat)
    ensures
        decimal_value(decimal_text(n)) == n,
    decreases n,
{
    if n >= 10 {
        lemma_decimal_value_of_text(n / 10);
        let t = decimal_text(n);
        assert(t.drop_last() =~= decimal_text(n / 10));
        assert(t.last() == digit_char(n % 10));
        assert(digit_value(digit_char(n % 10)) == n % 10);
        assert(decimal_value(t) == decimal_value(t.drop_last()) * 10 + digit_value(t.last()));
        assert(n == (n / 10) * 10 + n % 10);
    } else {
        let t = decimal_text(n);
        assert(t.drop_last() =~= Seq::<char>::empty());
        assert(decimal_value(Seq::<char>::empty()) == 0);
        assert(digit_value(digit_char(n)) == n);
        assert(decimal_value(t) == decimal_value(t.drop_last()) * 10 + digit_value(t.last()));
    }
}

/// Decimal text parses back: the spelling of any `usize` value, as
/// `to_string` writes it, is read by `parse::<usize>` as that same value.
pub proof fn law_decimal_text_parses_back(n: nat)
    requires
        n <= usize::MAX,
    ensures
        usize_from_text(decimal_text(n)) == Some(n),
{
    lemma_decimal_text_digits(n);
    lemma_decimal_value_of_text(n);
    assert(is_ascii_digit(decimal_text(n)[0]));
}

/// Appends the spelling of the digit `d` to `out`.
fn push_digit(out: &mut String, d: u64)
    requires
        d < 10,
    ensures
        final(out)@ == old(out)@.push(digit_char(d as nat)),
{
    let digits = "0123456789";
    proof {
        reveal_strlit("0123456789");
    }
    let ds = digits.substring_ascii(d as usize, (d + 1) as usize);
    assert(ds@ =~= seq![digit_char(d as nat)]);
    out.append(ds);
}

/// Appends the decimal spelling of `n` to `out`.
pub fn push_decimal(out: &mut String, n: u64)
    ensures
        final(out)@ == old(out)@ + decimal_text(n as nat),
    decreases n,
{
    if n >= 10 {
        push_decimal(out, n / 10);
    }
    push_digit(out, n % 10);
    assert(out@ =~= old(out)@ + decimal_text(n as nat));
}

/// The decimal spelling of `n`, as `n.to_string()` gives it.
pub fn decimal_string(n: u64) -> (s: String)
    ensures
        s@ == decimal_text(n as nat),
{
    let mut s = String::new();
    push_decimal(&mut s, n);
    assert(s@ =~= decimal_text(n as nat));
    s
}

/// The spelling of `n` padded with leading zeros to `width` characters, as
/// `format!("{:0width$}", n)` gives it.
pub fn zero_padded_string(n: u64, width: usize) -> (s: String)
    ensures
        s@ == zero_padded(n as nat, width as nat),
{
    let digits = decimal_string(n);
    let len: usize = digits.as_str().unicode_len();
    let mut s = String::new();
    if len < width {
        let mut k: usize = 0;
        while k < width - len
            invariant
                k <= width - len,
                len < width,
                s@ =~= Seq::new(k as nat, |_i: int| '0'),
            decreases width - len - k,
        {
            push_digit(&mut s, 0);
            k = k + 1;
        }
    }
    s.append(digits.as_str());
    assert(s@ =~= zero_padded(n as nat, width as nat));
    s
}

proof fn lemma_decimal_value_take(s: Seq<char>, i: int)
    requires
        0 <= i < s.len(),
    ensures
        decimal_value(s.take(i + 1)) == decimal_value(s.take(i)) * 10 + digit_value(s[i]),
{
    assert(s.take(i + 1).drop_last() =~= s.take(i));
}

proof fn lemma_decimal_value_grows(s: Seq<char>, i: int)
    requires
        0 <= i <= s.len(),
    ensures
        decimal_value(s.take(i)) <= decimal_value(s),
    decreases s.len() - i,
{
    if i < s.len() {
        lemma_decimal_value_take(s, i);
        lemma_decimal_value_grows(s, i + 1);
    } else {
        assert(s.take(i) =~= s);
    }
}

/// Parses a `usize` the way `str::parse::<usize>` does.
pub fn parse_usize(s: &str) -> (r: Option<usize>)
    ensures
        match r {
            Some(v) => usize_from_text(s@) == Some(v as nat),
            None => usize_from_text(s@) is None,
        },
{
    let n: usize = s.unicode_len();
    let mut start: usize = 0;
    if n > 0 && s.get_char(0) == '+' {
        start = 1;
    }
    let ghost digits = if s@.len() > 0 && s@[0] == '+' {
        s@.drop_first()
    } else {
        s@
    };
    assert(digits =~= s@.subrange(start as int, n as int));
    if start == n {
        return None;
    }
    let mut value: usize = 0;
    let mut i: usize = start;
    while i < n
        invariant
            start <= i <= n,
            n == s@.len(),
            digits =~= s@.subrange(start as int, n as int),
            digits == (if s@.len() > 0 && s@[0] == '+' {
                s@.drop_first()
            } else {
                s@
            }),
            digits.len() > 0,
            all_ascii_digits(digits.take(i - start)),
            value as nat == decimal_value(digits.take(i - start)),
        decreases n - i,
    {
        let c = s.get_char(i);
        proof {
            lemma_decimal_value_take(digits, i - start);
            assert(digits[i - start] == c);
        }
        if !('0' <= c && c <= '9') {
            assert(!all_ascii_digits(digits)) by {
                assert(!is_ascii_digit(digits[i - start]));
            }
            return None;
        }
        let d: usize = (c as u32 - 48) as usize;
        assert(d as nat == digit_value(c));
        match value.checked_mul(10) {
            None => {
                proof {
                    lemma_decimal_value_grows(digits, i - start + 1);
                }
                return None;
            },
            Some(v10) => match v10.checked_add(d) {
                None => {
                    proof {
                        lemma_decimal_value_grows(digits, i - start + 1);
                    }
                    return None;
                },
                Some(v) => {
                    assert(all_ascii_digits(digits.take(i - start + 1))) by {
                        assert forall|j: int| 0 <= j < digits.take(i - start + 1).len() implies is_ascii_digit(
                            #[trigger] digits.take(i - start + 1)[j],
                        ) by {
                            if j < i - start {
                                assert(digits.take(i - start + 1)[j] == digits.take(i - start)[j]);
                            }
                        }
                    }
                    value = v;
                },
            },
        }
        i = i + 1;
    }
    assert(digits.take(n - start) =~= digits);
    Some(value)
}

/// Whether `needle` occurs in `hay`, as `str::contains` answers it.
pub fn contains_str(hay: &str, needle: &str) -> (r: bool)
    ensures
        r == contains_text(hay@, needle@),
{
    let h: usize = hay.unicode_len();
    let m: usize = needle.unicode_len();
    if m > h {
        return false;
    }
    let mut i: usize = 0;
    while i <= h - m
        invariant
            m <= h,
            h == hay@.len(),
            m == needle@.len(),
            i <= h - m + 1,
            forall|k: int| 0 <= k < i ==> #[trigger] hay@.subrange(k, k + m) != needle@,
        decreases h - m + 1 - i,
    {
        let mut j: usize = 0;
        let mut same = true;
        while j < m
            invariant
                j <= m,
                i + m <= h,
                h == hay@.len(),
                m == needle@.len(),
                same == (forall|q: int| 0 <= q < j ==> hay@[i + q] == needle@[q]),
            decreases m - j,
        {
            if hay.get_char(i + j) != needle.get_char(j) {
                same = false;
            }
            j = j + 1;
        }
        if same {
            assert(hay@.subrange(i as int, i + m) =~= needle@);
            return true;
        } else {
            assert(hay@.subrange(i as int, i + m) != needle@) by {
                let q = choose|q: int| 0 <= q < m && hay@[i + q] != needle@[q];
                assert(hay@.subrange(i as int, i + m)[q] == hay@[i + q]);
            }
        }
        i = i + 1;
    }
    false
}

/// Whether two strings hold the same characters, as `==` on `str` answers it.
pub fn str_equal(a: &str, b: &str) -> (r: bool)
    ensures
        r == (a@ == b@),
{
    let n: usize = a.unicode_len();
    if n != b.unicode_len() {
        return false;
    }
    let mut i: usize = 0;
    while i < n
        invariant
            i <= n,
            n == a@.len(),
            n == b@.len(),
            forall|j: int| 0 <= j < i ==> a@[j] == b@[j],
        decreases n - i,
    {
        if a.get_char(i) != b.get_char(i) {
            return false;
        }
        i = i + 1;
    }
    assert(a@ =~= b@);
    true
}

/// The Unicode lower-case form of `s`, from `str::to_lowercase`.
#[verifier::external_body]
pub(crate) fn to_lowercase_string(s: &str) -> (r: String)
    ensures
        r@ == lowercase(s@),
{
    s.to_lowercase()
}

} // verus!
