use vstd::prelude::*;
use vstd::string::*;

verus! {

/// The character of a decimal digit.
pub open spec fn digit_char(d: nat) -> char {
    if d == 0 { '0' }
    else if d == 1 { '1' }
    else if d == 2 { '2' }
    else if d == 3 { '3' }
    else if d == 4 { '4' }
    else if d == 5 { '5' }
    else if d == 6 { '6' }
    else if d == 7 { '7' }
    else if d == 8 { '8' }
    else { '9' }
}

/// The decimal notation of `n`, without sign or leading zeros.
pub open spec fn decimal_of(n: nat) -> Seq<char>
    decreases n,
{
    if n < 10 {
        seq![digit_char(n)]
    } else {
        decimal_of(n / 10).push(digit_char(n % 10))
    }
}

/// `k` zero characters.
pub open spec fn zeros(k: nat) -> Seq<char>
    decreases k,
{
    if k == 0 {
        Seq::empty()
    } else {
        zeros((k - 1) as nat).push('0')
    }
}

/// The decimal notation of `n`, padded on the left with zeros to at least `width` characters.
pub open spec fn padded_decimal_of(n: nat, width: nat) -> Seq<char> {
    let d = decimal_of(n);
    if d.len() >= width {
        d
    } else {
        zeros((width - d.len()) as nat) + d
    }
}

fn digit_str(d: u64) -> (r: &'static str)
    requires
        d < 10,
    ensures
        r@ == seq![digit_char(d as nat)],
{
    proof {
        reveal_strlit("0");
        reveal_strlit("1");
        reveal_strlit("2");
        reveal_strlit("3");
        reveal_strlit("4");
        reveal_strlit("5");
        reveal_strlit("6");
        reveal_strlit("7");
        reveal_strlit("8");
        reveal_strlit("9");
    }
    match d {
        0 => "0",
        1 => "1",
        2 => "2",
        3 => "3",
        4 => "4",
        5 => "5",
        6 => "6",
        7 => "7",
        8 => "8",
        _ => "9",
    }
}

/// Number of characters in the decimal notation of `n`.
pub fn digit_count(n: u64) -> (r: usize)
    ensures
        r == decimal_of(n as nat).len(),
        1 <= r <= 20,
    decreases n,
{
    if n < 10 {
        1
    } else {
        let k = digit_count(n / 10);
        proof {
            assert(decimal_of(n as nat) == decimal_of((n / 10) as nat).push(digit_char((n % 10) as nat)));
        }
        proof {
            lemma_decimal_len_bound(n as nat);
        }
        k + 1
    }
}

spec fn pow10(k: nat) -> nat
    decreases k,
{
    if k == 0 { 1 } else { 10 * pow10((k - 1) as nat) }
}

proof fn lemma_decimal_len_below(n: nat, k: nat)
    requires
        1 <= k,
        n < pow10(k),
    ensures
        decimal_of(n).len() <= k,
    decreases k,
{
    if n >= 10 {
        assert(k > 1) by {
            if k == 1 {
                reveal_with_fuel(pow10, 2);
            }
        }
        assert(n / 10 < pow10((k - 1) as nat));
        lemma_decimal_len_below(n / 10, (k - 1) as nat);
    }
}

proof fn lemma_decimal_len_bound(n: nat)
    requires
        n < 0x1_0000_0000_0000_0000,
    ensures
        decimal_of(n).len() <= 20,
{
    reveal_with_fuel(pow10, 21);
    assert(pow10(20) == 100_000_000_000_000_000_000nat);
    lemma_decimal_len_below(n, 20);
}

/// The decimal notation of `n`.
pub fn decimal_string(n: u64) -> (r: String)
    ensures
        r@ == decimal_of(n as nat),
    decreases n,
{
    if n < 10 {
        String::from_str(digit_str(n))
    } else {
        let mut s = decimal_string(n / 10);
        s.append(digit_str(n % 10));
        s
    }
}

/// The decimal notation of `n`, padded on the left with zeros to at least `width` characters.
pub fn padded_decimal_string(n: u64, width: usize) -> (r: String)
    ensures
        r@ == padded_decimal_of(n as nat, width as nat),
{
    let digits = decimal_string(n);
    let len = digit_count(n);
    let mut r = String::new();
    if len < width {
        let mut k: usize = len;
        while k < width
            invariant
                len <= k <= width,
                r@ == zeros((k - len) as nat),
            decreases width - k,
        {
            proof {
                reveal_strlit("0");
            }
            r.append("0");
            k = k + 1;
        }
    }
    r.append(digits.as_str());
    r
}

/// A decimal notation is non-empty and made of digits only.
pub proof fn lemma_decimal_digits(n: nat)
    ensures
        decimal_of(n).len() >= 1,
        forall|k: int| 0 <= k < decimal_of(n).len() ==> '0' <= #[trigger] decimal_of(n)[k] <= '9',
    decreases n,
{
    if n >= 10 {
        lemma_decimal_digits(n / 10);
        let d = decimal_of(n / 10);
        assert(decimal_of(n) == d.push(digit_char(n % 10)));
        assert forall|k: int| 0 <= k < decimal_of(n).len() implies '0' <= #[trigger] decimal_of(n)[k]
            <= '9' by {
            if k < d.len() {
                assert(decimal_of(n)[k] == d[k]);
            }
        }
    }
}

/// Distinct numbers have distinct decimal notations.
pub proof fn lemma_decimal_injective(m: nat, n: nat)
    requires
        decimal_of(m) == decimal_of(n),
    ensures
        m == n,
    decreases m,
{
    if m >= 10 {
        lemma_decimal_digits(m / 10);
    }
    if n >= 10 {
        lemma_decimal_digits(n / 10);
    }
    if m < 10 && n < 10 {
        assert(decimal_of(m)[0] == digit_char(m));
        assert(decimal_of(n)[0] == digit_char(n));
    } else if m >= 10 && n >= 10 {
        let dm = decimal_of(m / 10);
        let dn = decimal_of(n / 10);
        assert(decimal_of(m) == dm.push(digit_char(m % 10)));
        assert(decimal_of(n) == dn.push(digit_char(n % 10)));
        assert(decimal_of(m).last() == digit_char(m % 10));
        assert(decimal_of(n).last() == digit_char(n % 10));
        assert(m % 10 == n % 10);
        assert(dm =~= decimal_of(m).drop_last());
        assert(dn =~= decimal_of(n).drop_last());
        lemma_decimal_injective(m / 10, n / 10);
    } else if m < 10 {
        assert(decimal_of(m).len() == 1);
        assert(decimal_of(n) == decimal_of(n / 10).push(digit_char(n % 10)));
        assert(decimal_of(n).len() >= 2);
    } else {
        assert(decimal_of(n).len() == 1);
        assert(decimal_of(m) == decimal_of(m / 10).push(digit_char(m % 10)));
        assert(decimal_of(m).len() >= 2);
    }
}

} // verus!
