//! The numeric normalizer: the single choke point through which every value
//! that ends up in an expansion must pass.  It accepts optionally signed
//! base-10 integer text of unbounded magnitude and returns its canonical
//! decimal form; anything else is rejected with the offending text preserved.

use vstd::prelude::*;

verus! {

/// A decimal digit: code point between '0' and '9'.
pub open spec fn is_ascii_digit(c: char) -> bool {
    48 <= c as u32 && c as u32 <= 57
}

/// The numeric value of one decimal digit.
pub open spec fn digit_value(c: char) -> int {
    c as u32 - 48
}

pub open spec fn all_digits(s: Seq<char>) -> bool {
    forall|i: int| 0 <= i < s.len() ==> is_ascii_digit(#[trigger] s[i])
}

/// True when the text opens with an explicit sign character.
pub open spec fn has_sign(s: Seq<char>) -> bool {
    s.len() > 0 && (s[0] == '+' || s[0] == '-')
}

/// The digit portion of integer text: everything after the optional sign.
pub open spec fn magnitude(s: Seq<char>) -> Seq<char> {
    if has_sign(s) {
        s.drop_first()
    } else {
        s
    }
}

/// Valid integer text: an optional sign followed by at least one decimal
/// digit, with no separators, whitespace, fraction or exponent.
pub open spec fn is_numeral(s: Seq<char>) -> bool {
    magnitude(s).len() > 0 && all_digits(magnitude(s))
}

/// The value of a digit string, most significant digit first.
pub open spec fn digits_value(s: Seq<char>) -> int
    decreases s.len(),
{
    if s.len() == 0 {
        0
    } else {
        10 * digits_value(s.drop_last()) + digit_value(s.last())
    }
}

/// The mathematical value that integer text denotes.
pub open spec fn numeral_value(s: Seq<char>) -> int {
    if s.len() > 0 && s[0] == '-' {
        -digits_value(magnitude(s))
    } else {
        digits_value(magnitude(s))
    }
}

/// Digit text with its leading zeros removed.
pub open spec fn strip_leading_zeros(s: Seq<char>) -> Seq<char>
    decreases s.len(),
{
    if s.len() > 0 && s[0] == '0' {
        strip_leading_zeros(s.drop_first())
    } else {
        s
    }
}

/// The canonical decimal form of integer text: no redundant leading zeros,
/// no '+', a single '-' only on a nonzero negative value, and "0" for zero.
pub open spec fn canonical_form(s: Seq<char>) -> Seq<char> {
    let m = strip_leading_zeros(magnitude(s));
    if m.len() == 0 {
        seq!['0']
    } else if s[0] == '-' {
        seq!['-'] + m
    } else {
        m
    }
}

/// Canonical integer text: "0", or a nonzero numeral with no sign but a
/// possible leading '-' and no leading zero.
pub open spec fn is_canonical(s: Seq<char>) -> bool {
    s =~= seq!['0'] || (is_numeral(s) && s[0] != '+' && magnitude(s)[0] != '0')
}

proof fn lemma_drop_zero_value(s: Seq<char>)
    requires
        s.len() > 0,
        s[0] == '0',
    ensures
        digits_value(s) == digits_value(s.drop_first()),
    decreases s.len(),
{
    if s.len() == 1 {
        assert(s.drop_last() =~= Seq::<char>::empty());
        assert(s.drop_first() =~= Seq::<char>::empty());
    } else {
        let t = s.drop_last();
        lemma_drop_zero_value(t);
        assert(t.drop_first() =~= s.drop_first().drop_last());
        assert(s.drop_first().last() == s.last());
    }
}

proof fn lemma_strip_zeros_value(s: Seq<char>)
    ensures
        digits_value(strip_leading_zeros(s)) == digits_value(s),
        strip_leading_zeros(s).len() <= s.len(),
        strip_leading_zeros(s).len() > 0 ==> strip_leading_zeros(s)[0] != '0',
        all_digits(s) ==> all_digits(strip_leading_zeros(s)),
    decreases s.len(),
{
    if s.len() > 0 && s[0] == '0' {
        lemma_drop_zero_value(s);
        lemma_strip_zeros_value(s.drop_first());
        assert(all_digits(s) ==> all_digits(s.drop_first())) by {
            if all_digits(s) {
                assert forall|i: int| 0 <= i < s.drop_first().len() implies is_ascii_digit(
                    #[trigger] s.drop_first()[i],
                ) by {
                    assert(s.drop_first()[i] == s[i + 1]);
                }
            }
        }
    }
}

proof fn lemma_strip_is_suffix(s: Seq<char>, k: int)
    requires
        0 <= k <= s.len(),
        forall|i: int| 0 <= i < k ==> s[i] == '0',
        k < s.len() ==> s[k] != '0',
    ensures
        strip_leading_zeros(s) =~= s.subrange(k, s.len() as int),
    decreases k,
{
    if k == 0 {
        assert(s.subrange(0, s.len() as int) =~= s);
    } else {
        let t = s.drop_first();
        assert forall|i: int| 0 <= i < k - 1 implies #[trigger] t[i] == '0' by {
            assert(t[i] == s[i + 1]);
        }
        assert(k - 1 < t.len() ==> t[k - 1] != '0');
        lemma_strip_is_suffix(t, k - 1);
        assert(t.subrange(k - 1, t.len() as int) =~= s.subrange(k, s.len() as int));
    }
}

/// Normalization is value-preserving: the canonical form of valid integer
/// text is itself valid, canonical, and denotes the same mathematical value,
/// so re-parsing a normalized numeral recovers exactly the original value.
pub proof fn lemma_canonical_form_value_preserving(s: Seq<char>)
    requires
        is_numeral(s),
    ensures
        is_numeral(canonical_form(s)),
        is_canonical(canonical_form(s)),
        numeral_value(canonical_form(s)) == numeral_value(s),
{
    let m = magnitude(s);
    lemma_strip_zeros_value(m);
    let t = strip_leading_zeros(m);
    if t.len() == 0 {
        assert(digits_value(m) == 0);
        assert(canonical_form(s) == seq!['0']);
        assert(seq!['0'].drop_last() =~= Seq::<char>::empty());
        assert(seq!['0'].last() == '0');
        assert(digit_value('0') == 0);
        assert(digits_value(seq!['0'].drop_last()) == 0);
        assert(digits_value(seq!['0']) == 10 * digits_value(seq!['0'].drop_last()) + digit_value(
            seq!['0'].last(),
        ));
        assert(digits_value(seq!['0']) == 0);
        assert(!has_sign(seq!['0']));
        assert(magnitude(seq!['0']) =~= seq!['0']);
    } else {
        assert(is_ascii_digit(t[0]));
        assert(t[0] != '+' && t[0] != '-');
        if s[0] == '-' {
            let c = seq!['-'] + t;
            assert(c[0] == '-');
            assert(c.drop_first() =~= t);
            assert(magnitude(c) == t);
            assert(canonical_form(s) == c);
        } else {
            assert(!has_sign(t));
            assert(magnitude(t) == t);
            assert(canonical_form(s) == t);
        }
    }
}

/// An invalid numeric value, carrying the offending text verbatim.
pub struct NumericParseError {
    pub text: String,
}

/// Parse arbitrary text as an optionally signed base-10 integer of unbounded
/// magnitude and return its canonical decimal form; reject anything else,
/// embedding the offending text in the error.
pub fn normalize_numeral(s: &str) -> (r: Result<String, NumericParseError>)
    ensures
        is_numeral(s@) ==> (r matches Ok(t) && t@ == canonical_form(s@)),
        !is_numeral(s@) ==> (r matches Err(e) && e.text@ == s@),
{
    let n: usize = s.unicode_len();
    let mut start: usize = 0;
    let mut neg: bool = false;
    if n > 0 {
        let c0 = s.get_char(0);
        if c0 == '-' {
            neg = true;
            start = 1;
        } else if c0 == '+' {
            start = 1;
        }
    }
    if start >= n {
        assert(magnitude(s@).len() == 0);
        return Err(NumericParseError { text: s.to_owned() });
    }
    assert(magnitude(s@) =~= s@.subrange(start as int, n as int));
    let mut j: usize = start;
    while j < n
        invariant
            start <= j <= n,
            n == s@.len(),
            magnitude(s@) == s@.subrange(start as int, n as int),
            forall|i: int| start <= i < j ==> is_ascii_digit(#[trigger] s@[i]),
        decreases n - j,
    {
        let c = s.get_char(j);
        let cv: u32 = c as u32;
        if cv < 48 || cv > 57 {
            assert(!is_numeral(s@)) by {
                assert(!is_ascii_digit(s@[j as int]));
                assert(magnitude(s@).len() == n - start);
                assert(magnitude(s@)[j - start] == s@.subrange(start as int, n as int)[j - start]);
                assert(magnitude(s@)[j - start] == s@[j as int]);
            }
            return Err(NumericParseError { text: s.to_owned() });
        }
        j += 1;
    }
    assert forall|i: int| 0 <= i < magnitude(s@).len() implies is_ascii_digit(
        #[trigger] magnitude(s@)[i],
    ) by {
        assert(magnitude(s@)[i] == s@[i + start]);
    }
    assert(is_numeral(s@));
    let ghost m = magnitude(s@);
    let mut k: usize = start;
    while k < n && s.get_char(k) == '0'
        invariant
            start <= k <= n,
            n == s@.len(),
            forall|i: int| start <= i < k ==> s@[i] == '0',
        decreases n - k,
    {
        k += 1;
    }
    proof {
        assert forall|i: int| 0 <= i < k - start implies #[trigger] m[i] == '0' by {
            assert(m[i] == s@[i + start]);
        }
        assert(k < n ==> m[k - start] != '0');
        lemma_strip_is_suffix(m, k - start);
        assert(m.subrange(k - start, m.len() as int) =~= s@.subrange(k as int, n as int));
    }
    if k == n {
        assert(strip_leading_zeros(m).len() == 0);
        let z = String::from_str("0");
        proof {
            reveal_strlit("0");
            assert(z@ =~= seq!['0']);
        }
        return Ok(z);
    }
    let mag = s.substring_char(k, n);
    assert(mag@ =~= strip_leading_zeros(m));
    if neg {
        let out = String::from_str("-").concat(mag);
        proof {
            reveal_strlit("-");
            assert(out@ =~= seq!['-'] + strip_leading_zeros(m));
        }
        Ok(out)
    } else {
        assert(s@[0] != '-');
        Ok(mag.to_owned())
    }
}

} // verus!
