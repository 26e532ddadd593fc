//! Decimal rendering and parsing of integers, matching the standard library's
//! `to_string` and `parse` behaviour for the cases the store relies on.
use vstd::prelude::*;
use vstd::string::StringExecFns;
use crate::text::chars_vec;

verus! {

/// The character for one decimal digit.
pub open spec fn digit_char(d: int) -> char {
    if d == 0 {
        '0'
    } else if d == 1 {
        '1'
    } else if d == 2 {
        '2'
    } else if d == 3 {
        '3'
    } else if d == 4 {
        '4'
    } else if d == 5 {
        '5'
    } else if d == 6 {
        '6'
    } else if d == 7 {
        '7'
    } else if d == 8 {
        '8'
    } else {
        '9'
    }
}

/// The decimal digits of `n`, most significant first, without sign or
/// padding: what `u64::to_string` prints.
pub open spec fn dec_str(n: nat) -> Seq<char>
    decreases n,
{
    if n < 10 {
        seq![digit_char(n as int)]
    } else {
        dec_str(n / 10) + seq![digit_char((n % 10) as int)]
    }
}

fn digit_str(d: u64) -> (r: &'static str)
    requires
        d < 10,
    ensures
        r@ == seq![digit_char(d as int)],
{
    proof {
        reveal_strlit("0");
        reveal_strlit("1");
        reveal_strlit("2");
        reveal_strlit("3");
        reveal_strlit("4");
        reveal_strlit("5");
        reveal_strlit("6");
        reveal_strlit("7");
        reveal_strlit("8");
        reveal_strlit("9");
    }
    let r = if d == 0 {
        "0"
    } else if d == 1 {
        "1"
    } else if d == 2 {
        "2"
    } else if d == 3 {
        "3"
    } else if d == 4 {
        "4"
    } else if d == 5 {
        "5"
    } else if d == 6 {
        "6"
    } else if d == 7 {
        "7"
    } else if d == 8 {
        "8"
    } else {
        "9"
    };
    proof {
        assert(r@ =~= seq![digit_char(d as int)]);
    }
    r
}

/// Renders `n` in decimal, exactly as `u64::to_string` does.
pub fn u64_to_string(n: u64) -> (r: String)
    ensures
        r@ == dec_str(n as nat),
{
    let mut m = n;
    let mut acc = String::new();
    proof {
        assert(dec_str(n as nat) =~= dec_str(m as nat) + acc@);
    }
    while m >= 10
        invariant
            dec_str(n as nat) == dec_str(m as nat) + acc@,
        decreases m,
    {
        let d = m % 10;
        let next = m / 10;
        proof {
            assert(m as nat / 10 == next as nat);
            assert((m as nat % 10) as int == d as int);
            assert(dec_str(m as nat) == dec_str(next as nat) + seq![digit_char(d as int)]);
            assert(dec_str(next as nat) + (seq![digit_char(d as int)] + acc@) =~= (dec_str(
                next as nat,
            ) + seq![digit_char(d as int)]) + acc@);
        }
        let mut piece = digit_str(d).to_owned();
        piece.append(acc.as_str());
        acc = piece;
        m = next;
    }
    let mut r = digit_str(m).to_owned();
    r.append(acc.as_str());
    proof {
        assert(r@ =~= dec_str(n as nat));
    }
    r
}

/// A decimal rendering consists of digits alone and reads back as the number
/// it was made from.
pub proof fn lemma_dec_str_digits(n: nat)
    ensures
        dec_str(n).len() >= 1,
        all_digits(dec_str(n)),
        digits_val(dec_str(n)) == n,
    decreases n,
{
    assert(forall|d: int| 0 <= d < 10 ==> is_digit(#[trigger] digit_char(d)));
    assert(forall|d: int| 0 <= d < 10 ==> digit_val(#[trigger] digit_char(d)) == d);
    if n < 10 {
        let s = seq![digit_char(n as int)];
        assert(s.drop_last() =~= Seq::<char>::empty());
        assert(digits_val(Seq::<char>::empty()) == 0);
        assert(s.last() == digit_char(n as int));
        assert(digits_val(s) == n);
    } else {
        lemma_dec_str_digits(n / 10);
        vstd::arithmetic::div_mod::lemma_fundamental_div_mod(n as int, 10);
        let a = dec_str(n / 10);
        let c = digit_char((n % 10) as int);
        let s = a + seq![c];
        assert(s.drop_last() =~= a);
        assert(s.last() == c);
        assert(digits_val(s) == digits_val(a) * 10 + digit_val(c));
        assert(all_digits(s)) by {
            assert forall|i: int| 0 <= i < s.len() implies is_digit(#[trigger] s[i]) by {
                if i < a.len() {
                    assert(s[i] == a[i]);
                } else {
                    assert(s[i] == c);
                }
            }
        }
    }
}

/// A decimal digit character.
pub open spec fn is_digit(c: char) -> bool {
    0x30 <= c as u32 && c as u32 <= 0x39
}

/// The numeric value of a digit character.
pub open spec fn digit_val(c: char) -> int {
    c as u32 - 0x30
}

/// Every character is a decimal digit.
pub open spec fn all_digits(s: Seq<char>) -> bool {
    forall|i: int| 0 <= i < s.len() ==> is_digit(#[trigger] s[i])
}

/// The value of a digit string, most significant first.
pub open spec fn digits_val(s: Seq<char>) -> int
    decreases s.len(),
{
    if s.len() == 0 {
        0
    } else {
        digits_val(s.drop_last()) * 10 + digit_val(s.last())
    }
}

/// What `str::parse::<u64>` accepts: an optional leading `'+'`, then one or
/// more decimal digits whose value fits in the type.
pub open spec fn parse_u64_spec(s: Seq<char>) -> Option<u64> {
    let ds = if s.len() > 0 && s[0] == '+' {
        s.drop_first()
    } else {
        s
    };
    if ds.len() > 0 && all_digits(ds) && digits_val(ds) <= u64::MAX {
        Some(digits_val(ds) as u64)
    } else {
        None
    }
}

/// What `str::parse::<i32>` accepts: an optional sign, then one or more
/// decimal digits whose signed value fits in the type.
pub open spec fn parse_i32_spec(s: Seq<char>) -> Option<i32> {
    let neg = s.len() > 0 && s[0] == '-';
    let ds = if s.len() > 0 && (s[0] == '+' || s[0] == '-') {
        s.drop_first()
    } else {
        s
    };
    if ds.len() > 0 && all_digits(ds) {
        let v = digits_val(ds);
        if neg && v <= 0x8000_0000 {
            Some((-v) as i32)
        } else if !neg && v <= 0x7fff_ffff {
            Some(v as i32)
        } else {
            None
        }
    } else {
        None
    }
}

proof fn lemma_digits_val_nonneg(s: Seq<char>)
    requires
        all_digits(s),
    ensures
        digits_val(s) >= 0,
    decreases s.len(),
{
    if s.len() > 0 {
        lemma_digits_val_nonneg(s.drop_last());
    }
}

proof fn lemma_digits_val_prefix(s: Seq<char>, k: int)
    requires
        all_digits(s),
        0 <= k <= s.len(),
    ensures
        digits_val(s.take(k)) <= digits_val(s),
    decreases s.len(),
{
    if k == s.len() {
        assert(s.take(k) =~= s);
    } else {
        assert(s.drop_last().take(k) =~= s.take(k));
        lemma_digits_val_prefix(s.drop_last(), k);
        lemma_digits_val_nonneg(s.drop_last());
    }
}

/// Parses the digits of `v[from..to]` as `str::parse::<u64>` would.
#[verifier::loop_isolation(false)]
pub fn parse_u64_range(v: &Vec<char>, from: usize, to: usize) -> (r: Option<u64>)
    requires
        from <= to <= v@.len(),
    ensures
        r == parse_u64_spec(v@.subrange(from as int, to as int)),
{
    let ghost s = v@.subrange(from as int, to as int);
    let start: usize = if from < to && v[from] == '+' {
        from + 1
    } else {
        from
    };
    let ghost ds = v@.subrange(start as int, to as int);
    proof {
        if from < to && v@[from as int] == '+' {
            assert(s.drop_first() =~= ds);
        } else {
            assert(s =~= ds);
        }
    }
    if start == to {
        return None;
    }
    let mut acc: u64 = 0;
    let mut j: usize = start;
    proof {
        assert(ds.take(0) =~= Seq::<char>::empty());
    }
    while j < to
        invariant
            start <= j <= to <= v@.len(),
            ds == v@.subrange(start as int, to as int),
            all_digits(ds.take(j - start)),
            acc as int == digits_val(ds.take(j - start)),
        decreases to - j,
    {
        let c = v[j];
        let u = c as u32;
        let ghost k = j - start + 1;
        proof {
            assert(ds[j - start] == c);
            assert(ds.take(k).drop_last() =~= ds.take(k - 1));
            assert(ds.take(k).last() == c);
        }
        if u < 0x30 || u > 0x39 {
            proof {
                assert(!is_digit(ds[j - start]));
            }
            return None;
        }
        let d = (u - 0x30) as u64;
        proof {
            assert(digits_val(ds.take(k)) == acc as int * 10 + d as int);
            assert(all_digits(ds.take(k))) by {
                assert forall|i: int| 0 <= i < k implies is_digit(#[trigger] ds.take(k)[i]) by {
                    assert(ds.take(k)[i] == ds[i]);
                    if i < k - 1 {
                        assert(ds.take(k - 1)[i] == ds[i]);
                        assert(is_digit(ds.take(k - 1)[i]));
                    }
                }
            }
        }
        let step = match acc.checked_mul(10) {
            Some(t) => t.checked_add(d),
            None => None,
        };
        match step {
            Some(next) => {
                acc = next;
            },
            None => {
                proof {
                    assert(digits_val(ds.take(k)) > u64::MAX);
                    if all_digits(ds) {
                        lemma_digits_val_prefix(ds, k);
                        assert(digits_val(ds) > u64::MAX);
                    }
                }
                return None;
            },
        }
        j = j + 1;
    }
    proof {
        assert(ds.take(to - start) =~= ds);
        lemma_digits_val_nonneg(ds);
    }
    Some(acc)
}

/// Parses `value` as `str::parse::<i32>` would: optional sign, digits, range
/// check.
pub fn parse_i32(value: &str) -> (r: Option<i32>)
    ensures
        r == parse_i32_spec(value@),
{
    let v = chars_vec(value);
    let n = v.len();
    let ghost s = value@;
    let neg = n > 0 && v[0] == '-';
    let start: usize = if n > 0 && (v[0] == '+' || v[0] == '-') {
        1
    } else {
        0
    };
    let ghost ds = s.skip(start as int);
    proof {
        if start == 1 {
            assert(s.drop_first() =~= ds);
        } else {
            assert(s =~= ds);
        }
    }
    if start == n {
        return None;
    }
    if v[start] == '+' {
        // A second sign: the first remaining character is not a digit.
        proof {
            assert(!is_digit(ds[0]));
        }
        return None;
    }
    let ghost sub = v@.subrange(start as int, n as int);
    proof {
        assert(sub =~= ds);
        assert(ds[0] != '+');
    }
    match parse_u64_range(&v, start, n) {
        Some(a) => {
            proof {
                if ds.len() > 0 && all_digits(ds) {
                    lemma_digits_val_nonneg(ds);
                }
                assert(digits_val(ds) == a as int);
            }
            if neg {
                if a <= 0x8000_0000 {
                    let r = -(a as i64);
                    proof {
                        assert(r as int == -(a as int));
                    }
                    Some(r as i32)
                } else {
                    None
                }
            } else {
                if a <= 0x7fff_ffff {
                    Some(a as i32)
                } else {
                    None
                }
            }
        },
        None => {
            proof {
                if ds.len() > 0 && all_digits(ds) {
                    assert(digits_val(ds) > u64::MAX);
                }
            }
            None
        },
    }
}

} // verus!
