//! Decimal rendering of unsigned integers, used for the scale and
//! compression arguments handed to the external tool and for the
//! elapsed-seconds success notice.

use vstd::prelude::*;

verus! {

/// The character for a single decimal digit.
pub open spec fn digit_char(d: nat) -> char {
    if d == 0 {
        '0'
    } else if d == 1 {
        '1'
    } else if d == 2 {
        '2'
    } else if d == 3 {
        '3'
    } else if d == 4 {
        '4'
    } else if d == 5 {
        '5'
    } else if d == 6 {
        '6'
    } else if d == 7 {
        '7'
    } else if d == 8 {
        '8'
    } else {
        '9'
    }
}

/// The usual decimal rendering of `n`, without a sign and without
/// leading zeroes.
pub open spec fn dec_str(n: nat) -> Seq<char>
    decreases n,
{
    if n < 10 {
        seq![digit_char(n)]
    } else {
        dec_str(n / 10).push(digit_char(n % 10))
    }
}

pub proof fn lemma_dec_str_len(n: nat)
    ensures
        n < 10 ==> dec_str(n).len() == 1,
        n >= 10 ==> dec_str(n).len() >= 2,
    decreases n,
{
    if n >= 10 {
        lemma_dec_str_len(n / 10);
    }
}

/// Two numbers with the same decimal rendering are the same number.
pub proof fn lemma_dec_str_injective(a: nat, b: nat)
    requires
        dec_str(a) == dec_str(b),
    ensures
        a == b,
    decreases a,
{
    lemma_dec_str_len(a);
    lemma_dec_str_len(b);
    if a < 10 && b < 10 {
        assert(dec_str(a)[0] == digit_char(a));
        assert(dec_str(b)[0] == digit_char(b));
    } else if a >= 10 && b >= 10 {
        let da = dec_str(a / 10);
        let db = dec_str(b / 10);
        assert(dec_str(a) == da.push(digit_char(a % 10)));
        assert(dec_str(b) == db.push(digit_char(b % 10)));
        assert(da =~= db) by {
            assert(da.push(digit_char(a % 10)).drop_last() =~= da);
            assert(db.push(digit_char(b % 10)).drop_last() =~= db);
        }
        assert(digit_char(a % 10) == dec_str(a).last());
        assert(digit_char(b % 10) == dec_str(b).last());
        lemma_dec_str_injective(a / 10, b / 10);
        assert(a % 10 == b % 10);
    }
}

/// Renders `n` in decimal.
pub fn u64_to_string(n: u64) -> (s: String)
    ensures
        s@ == dec_str(n as nat),
    decreases n,
{
    let digits = "0123456789";
    proof {
        reveal_strlit("0123456789");
    }
    let d = (n % 10) as usize;
    let dc = digits.substring_char(d, d + 1);
    proof {
        assert(dc@ =~= seq![digit_char((n % 10) as nat)]);
    }
    if n < 10 {
        dc.to_owned()
    } else {
        let mut prefix = u64_to_string(n / 10);
        prefix.append(dc);
        proof {
            assert(prefix@ =~= dec_str(n as nat));
        }
        prefix
    }
}

} // verus!
