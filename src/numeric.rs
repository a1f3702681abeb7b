//! Fixed-point helpers shared by the spell system.
//!
//! Ratios are expressed in thousandths (`1000` is ×1.0, `1500` is ×1.5) and
//! damage, speed and health in thousandths of a game unit.

use vstd::prelude::*;
use vstd::string::StringExecFns;

verus! {

/// `value × ratio / 1000`, rounded down and capped at `u64::MAX`.
pub open spec fn scaled(value: nat, per_mille: nat) -> nat {
    let r = value * per_mille / 1000;
    if r > u64::MAX as nat {
        u64::MAX as nat
    } else {
        r
    }
}

/// Multiplies `value` by a ratio given in thousandths.
pub fn scale(value: u64, per_mille: u64) -> (r: u64)
    ensures
        r == scaled(value as nat, per_mille as nat),
{
    proof {
        assert((value as nat) * (per_mille as nat) <= (u64::MAX as nat) * (u64::MAX as nat))
            by (nonlinear_arith)
            requires
                value <= u64::MAX,
                per_mille <= u64::MAX,
        ;
    }
    let wide: u128 = (value as u128) * (per_mille as u128) / 1000;
    if wide > u64::MAX as u128 {
        u64::MAX
    } else {
        wide as u64
    }
}

/// `a + b`, capped at `u64::MAX`.
pub open spec fn capped_sum(a: nat, b: nat) -> nat {
    if a + b > u64::MAX as nat {
        u64::MAX as nat
    } else {
        a + b
    }
}

/// `h + inc` kept within `i64`.
pub open spec fn hits_plus(h: int, inc: int) -> int {
    if h + inc > i64::MAX as int {
        i64::MAX as int
    } else {
        h + inc
    }
}

/// Adds a non-negative amount to a hit counter without leaving `i64`.
pub fn add_hits(h: i64, inc: u32) -> (r: i64)
    ensures
        r == hits_plus(h as int, inc as int),
{
    if h <= i64::MAX - (inc as i64) {
        h + inc as i64
    } else {
        i64::MAX
    }
}

/// The character of a decimal digit.
pub open spec fn digit_char(d: nat) -> char {
    seq!['0', '1', '2', '3', '4', '5', '6', '7', '8', '9'][d as int]
}

/// Base-ten text of `n`: no sign and no leading zeros.
pub open spec fn decimal_text(n: nat) -> Seq<char>
    decreases n,
{
    if n < 10 {
        seq![digit_char(n)]
    } else {
        decimal_text(n / 10).push(digit_char(n % 10))
    }
}

/// The text of one decimal digit.
fn digit_str(d: u64) -> (r: &'static str)
    requires
        d < 10,
    ensures
        r@ == seq![digit_char(d as nat)],
{
    match d {
        0 => {
            proof {
                reveal_strlit("0");
            }
            "0"
        },
        1 => {
            proof {
                reveal_strlit("1");
            }
            "1"
        },
        2 => {
            proof {
                reveal_strlit("2");
            }
            "2"
        },
        3 => {
            proof {
                reveal_strlit("3");
            }
            "3"
        },
        4 => {
            proof {
                reveal_strlit("4");
            }
            "4"
        },
        5 => {
            proof {
                reveal_strlit("5");
            }
            "5"
        },
        6 => {
            proof {
                reveal_strlit("6");
            }
            "6"
        },
        7 => {
            proof {
                reveal_strlit("7");
            }
            "7"
        },
        8 => {
            proof {
                reveal_strlit("8");
            }
            "8"
        },
        _ => {
            proof {
                reveal_strlit("9");
            }
            "9"
        },
    }
}

/// Base-ten text of `n`.
pub(crate) fn decimal(n: u64) -> (r: String)
    ensures
        r@ == decimal_text(n as nat),
{
    let mut m: u64 = n;
    let mut acc = String::new();
    assert(decimal_text(n as nat) =~= decimal_text(m as nat) + acc@);
    while m >= 10
        invariant
            decimal_text(n as nat) == decimal_text(m as nat) + acc@,
        decreases m,
    {
        let next = String::from_str(digit_str(m % 10)).concat(acc.as_str());
        assert(decimal_text(m as nat) == decimal_text((m / 10) as nat).push(digit_char((m % 10) as nat)));
        assert(decimal_text(m as nat) + acc@ =~= decimal_text((m / 10) as nat) + next@);
        acc = next;
        m = m / 10;
    }
    let r = String::from_str(digit_str(m)).concat(acc.as_str());
    assert(decimal_text(m as nat) + acc@ =~= r@);
    r
}

} // verus!
