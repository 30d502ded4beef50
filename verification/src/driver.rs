use vstd::prelude::*;

verus! {

/// ASCII whitespace as stdin hands it back: space, tab, line feed, carriage
/// return.
pub open spec fn is_ascii_ws(b: u8) -> bool {
    b == 32 || b == 9 || b == 10 || b == 13
}

/// Leading whitespace removed.
pub open spec fn trim_left(s: Seq<u8>) -> Seq<u8>
    decreases s.len(),
{
    if s.len() > 0 && is_ascii_ws(s[0]) {
        trim_left(s.drop_first())
    } else {
        s
    }
}

/// Trailing whitespace removed.
pub open spec fn trim_right(s: Seq<u8>) -> Seq<u8>
    decreases s.len(),
{
    if s.len() > 0 && is_ascii_ws(s.last()) {
        trim_right(s.drop_last())
    } else {
        s
    }
}

/// Whitespace removed from both ends.
pub open spec fn trim_spec(s: Seq<u8>) -> Seq<u8> {
    trim_right(trim_left(s))
}

fn byte_is_ws(b: u8) -> (r: bool)
    ensures
        r == is_ascii_ws(b),
{
    b == 32 || b == 9 || b == 10 || b == 13
}

/// Strip ASCII whitespace from both ends of an answer line.
pub fn trim_ascii(v: &Vec<u8>) -> (r: Vec<u8>)
    ensures
        r@ == trim_spec(v@),
{
    let n = v.len();
    proof {
        assert(v@.subrange(0, n as int) =~= v@);
    }
    let mut start: usize = 0;
    while start < n && byte_is_ws(v[start])
        invariant
            n == v@.len(),
            start <= n,
            trim_left(v@) == trim_left(v@.subrange(start as int, n as int)),
        decreases n - start,
    {
        proof {
            let cur = v@.subrange(start as int, n as int);
            assert(cur.drop_first() =~= v@.subrange(start + 1, n as int));
        }
        start = start + 1;
    }
    proof {
        let cur = v@.subrange(start as int, n as int);
        if cur.len() > 0 {
            assert(!is_ascii_ws(cur[0]));
        }
        assert(trim_left(v@) == cur);
    }
    let mut end: usize = n;
    while end > start && byte_is_ws(v[end - 1])
        invariant
            n == v@.len(),
            start <= end <= n,
            trim_left(v@) == v@.subrange(start as int, n as int),
            trim_right(v@.subrange(start as int, n as int)) == trim_right(
                v@.subrange(start as int, end as int),
            ),
        decreases end,
    {
        proof {
            let cur = v@.subrange(start as int, end as int);
            assert(cur.len() > 0 && is_ascii_ws(cur.last()));
            assert(cur.drop_last() =~= v@.subrange(start as int, end - 1));
        }
        end = end - 1;
    }
    proof {
        let cur = v@.subrange(start as int, end as int);
        if cur.len() > 0 {
            assert(!is_ascii_ws(cur.last()));
        }
        assert(trim_spec(v@) == cur);
    }
    let mut r: Vec<u8> = Vec::new();
    let mut i: usize = start;
    while i < end
        invariant
            start <= i <= end <= n,
            n == v@.len(),
            r@ == v@.subrange(start as int, i as int),
        decreases end - i,
    {
        r.push(v[i]);
        proof {
            assert(r@ =~= v@.subrange(start as int, i + 1));
        }
        i = i + 1;
    }
    proof {
        assert(r@ =~= v@.subrange(start as int, end as int));
    }
    r
}

/// The affirmative answers the prompt accepts.
pub open spec fn is_yes(s: Seq<u8>) -> bool {
    ||| s == seq![121u8]
    ||| s == seq![89u8]
    ||| s == seq![121u8, 101u8, 115u8]
    ||| s == seq![89u8, 101u8, 115u8]
    ||| s == seq![89u8, 69u8, 83u8]
}

/// The negative answers the prompt accepts.
pub open spec fn is_no(s: Seq<u8>) -> bool {
    ||| s == seq![110u8]
    ||| s == seq![78u8]
    ||| s == seq![110u8, 111u8]
    ||| s == seq![78u8, 111u8]
    ||| s == seq![78u8, 79u8]
}

/// Classify a trimmed operator answer: `Some(true)` for one of
/// y/Y/yes/Yes/YES, `Some(false)` for one of n/N/no/No/NO, `None` for
/// anything else, on which the driver asks again.
pub fn classify_response(answer: &Vec<u8>) -> (r: Option<bool>)
    ensures
        r == Some(true) <==> is_yes(answer@),
        r == Some(false) <==> is_no(answer@),
        r is None <==> !is_yes(answer@) && !is_no(answer@),
{
    proof {
        assert(seq![121u8].len() == 1);
        assert(seq![89u8].len() == 1);
        assert(seq![110u8].len() == 1);
        assert(seq![78u8].len() == 1);
        assert(seq![110u8, 111u8].len() == 2);
        assert(seq![78u8, 111u8].len() == 2);
        assert(seq![78u8, 79u8].len() == 2);
        assert(seq![121u8, 101u8, 115u8].len() == 3);
        assert(seq![89u8, 101u8, 115u8].len() == 3);
        assert(seq![89u8, 69u8, 83u8].len() == 3);
    }
    let n = answer.len();
    if n == 1 {
        let b = answer[0];
        proof {
            assert(answer@ =~= seq![answer@[0]]);
        }
        if b == 121 || b == 89 {
            Some(true)
        } else if b == 110 || b == 78 {
            Some(false)
        } else {
            None
        }
    } else if n == 2 {
        let b0 = answer[0];
        let b1 = answer[1];
        proof {
            assert(answer@ =~= seq![answer@[0], answer@[1]]);
        }
        if (b0 == 110 && b1 == 111) || (b0 == 78 && b1 == 111) || (b0 == 78 && b1 == 79) {
            Some(false)
        } else {
            None
        }
    } else if n == 3 {
        let b0 = answer[0];
        let b1 = answer[1];
        let b2 = answer[2];
        proof {
            assert(answer@ =~= seq![answer@[0], answer@[1], answer@[2]]);
        }
        if (b0 == 121 && b1 == 101 && b2 == 115) || (b0 == 89 && b1 == 101 && b2 == 115) || (b0
            == 89 && b1 == 69 && b2 == 83) {
            Some(true)
        } else {
            None
        }
    } else {
        None
    }
}

/// A decimal digit byte.
pub open spec fn is_dec_digit(b: u8) -> bool {
    48 <= b <= 57
}

/// Every byte is a decimal digit.
pub open spec fn all_dec_digits(s: Seq<u8>) -> bool {
    forall|i: int| 0 <= i < s.len() ==> is_dec_digit(#[trigger] s[i])
}

/// The number the digit string denotes.
pub open spec fn dec_value(s: Seq<u8>) -> int
    decreases s.len(),
{
    if s.len() == 0 {
        0
    } else {
        dec_value(s.drop_last()) * 10 + (s.last() - 48)
    }
}

/// The digit part of an amount argument: a single leading `+` is allowed, as
/// in the standard library's unsigned parser.
pub open spec fn digits_of(s: Seq<u8>) -> Seq<u8> {
    if s.len() > 0 && s[0] == 43 {
        s.drop_first()
    } else {
        s
    }
}

/// A well-formed amount: a non-empty digit string (after the optional sign)
/// whose value fits an unsigned 64-bit integer.
pub open spec fn valid_amount(s: Seq<u8>) -> bool {
    &&& digits_of(s).len() >= 1
    &&& all_dec_digits(digits_of(s))
    &&& dec_value(digits_of(s)) <= u64::MAX
}

proof fn lemma_dec_value_nonneg(s: Seq<u8>)
    requires
        all_dec_digits(s),
    ensures
        dec_value(s) >= 0,
    decreases s.len(),
{
    if s.len() > 0 {
        assert(all_dec_digits(s.drop_last()));
        lemma_dec_value_nonneg(s.drop_last());
    }
}

proof fn lemma_dec_value_prefix(s: Seq<u8>, m: int)
    requires
        all_dec_digits(s),
        0 <= m <= s.len(),
    ensures
        dec_value(s.subrange(0, m)) <= dec_value(s),
    decreases s.len() - m,
{
    if m == s.len() {
        assert(s.subrange(0, m) =~= s);
    } else {
        lemma_dec_value_prefix(s, m + 1);
        let longer = s.subrange(0, m + 1);
        assert(longer.drop_last() =~= s.subrange(0, m));
        assert(all_dec_digits(s.subrange(0, m)));
        lemma_dec_value_nonneg(s.subrange(0, m));
        assert(dec_value(longer) == dec_value(s.subrange(0, m)) * 10 + (longer.last() - 48));
    }
}

/// Parse the amount argument as the number of satoshis to commit: the exact
/// decimal value when the argument is well formed, nothing otherwise.
pub fn parse_amount(s: &Vec<u8>) -> (r: Option<u64>)
    ensures
        r is Some <==> valid_amount(s@),
        r matches Some(v) ==> v == dec_value(digits_of(s@)),
{
    let n = s.len();
    let start: usize = if n > 0 && s[0] == 43 {
        1
    } else {
        0
    };
    proof {
        assert(digits_of(s@) =~= s@.subrange(start as int, n as int));
    }
    if start == n {
        return None;
    }
    let ghost digits = s@.subrange(start as int, n as int);
    let mut acc: u64 = 0;
    let mut i: usize = start;
    while i < n
        invariant
            start <= i <= n,
            n == s@.len(),
            digits == s@.subrange(start as int, n as int),
            digits == digits_of(s@),
            all_dec_digits(digits.subrange(0, i - start)),
            acc == dec_value(digits.subrange(0, i - start)),
        decreases n - i,
    {
        let b = s[i];
        proof {
            assert(digits[i - start] == s@[i as int]);
        }
        if !(48 <= b && b <= 57) {
            proof {
                assert(!is_dec_digit(digits[i - start]));
                assert(!all_dec_digits(digits));
            }
            return None;
        }
        let digit = b - 48;
        if acc > 1844674407370955161u64 || (acc == 1844674407370955161u64 && digit > 5) {
            proof {
                let m = i - start + 1;
                let pre = digits.subrange(0, m);
                assert(pre.drop_last() =~= digits.subrange(0, i - start));
                assert(pre.last() == digits[i - start]);
                assert(all_dec_digits(pre));
                assert(dec_value(pre) == acc * 10 + digit);
                assert(dec_value(pre) > u64::MAX);
                if all_dec_digits(digits) {
                    lemma_dec_value_prefix(digits, m);
                    assert(dec_value(digits) > u64::MAX);
                }
            }
            return None;
        }
        let new_acc = acc * 10 + digit as u64;
        proof {
            let m = i - start + 1;
            let pre = digits.subrange(0, m);
            assert(pre.drop_last() =~= digits.subrange(0, i - start));
            assert(pre.last() == digits[i - start]);
            assert(all_dec_digits(pre));
            assert(dec_value(pre) == acc * 10 + digit);
        }
        acc = new_acc;
        i = i + 1;
    }
    proof {
        assert(digits.subrange(0, n - start) =~= digits);
    }
    Some(acc)
}

} // verus!
