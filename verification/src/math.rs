//! Powers of two.

use vstd::prelude::*;

verus! {

/// Two to the power of `n`.
pub open spec fn power_of_two(n: nat) -> nat
    decreases n,
{
    if n == 0 {
        1
    } else {
        2 * power_of_two((n - 1) as nat)
    }
}

/// Powers of two grow with the exponent.
pub proof fn power_of_two_grows(m: nat, n: nat)
    requires
        m <= n,
    ensures
        1 <= power_of_two(m) <= power_of_two(n),
    decreases n,
{
    if m < n {
        power_of_two_grows(m, (n - 1) as nat);
    } else if n > 0 {
        power_of_two_grows((n - 1) as nat, (n - 1) as nat);
    }
}

/// Adding exponents multiplies powers.
pub proof fn power_of_two_adds(m: nat, n: nat)
    ensures
        power_of_two(m + n) == power_of_two(m) * power_of_two(n),
    decreases n,
{
    if n > 0 {
        power_of_two_adds(m, (n - 1) as nat);
        let a = power_of_two(m);
        let b = power_of_two((n - 1) as nat);
        assert(2 * (a * b) == a * (2 * b)) by (nonlinear_arith);
    } else {
        let a = power_of_two(m);
        assert(a * 1 == a);
    }
}

proof fn lemma_power_62()
    ensures
        power_of_two(62) == 0x4000_0000_0000_0000,
{
    assert(power_of_two(15) == 32768) by {
        reveal_with_fuel(power_of_two, 16);
    }
    power_of_two_adds(15, 15);
    power_of_two_adds(30, 30);
    let a = power_of_two(15);
    let b = power_of_two(30);
    assert(a * a == 0x4000_0000) by (nonlinear_arith)
        requires
            a == 32768,
    ;
    assert(b * b == 0x1000_0000_0000_0000) by (nonlinear_arith)
        requires
            b == 0x4000_0000,
    ;
    assert(power_of_two(61) == 2 * power_of_two(60));
    assert(power_of_two(62) == 2 * power_of_two(61));
}

/// Two to the power of `n`.
pub fn two_to(n: u32) -> (power: u64)
    requires
        n <= 62,
    ensures
        power == power_of_two(n as nat),
{
    let mut power: u64 = 1;
    let mut i: u32 = 0;
    while i < n
        invariant
            i <= n <= 62,
            power == power_of_two(i as nat),
        decreases n - i,
    {
        proof {
            power_of_two_grows((i + 1) as nat, 62);
            lemma_power_62();
        }
        power = 2 * power;
        i = i + 1;
    }
    power
}

} // verus!
