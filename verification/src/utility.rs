use vstd::arithmetic::power::{lemma_pow_increases, pow as pow_int};
use vstd::prelude::*;

verus! {

/// Mathematical exponentiation, the model for the executable `pow`.
pub open spec fn pow_spec(num: nat, exp: nat) -> int {
    pow_int(num as int, exp)
}

/// Returns the number raised to the power.
pub fn pow(num: usize, exp: usize) -> (value: usize)
    requires
        pow_spec(num as nat, exp as nat) <= usize::MAX,
    ensures
        value == pow_spec(num as nat, exp as nat),
{
    broadcast use vstd::arithmetic::power::group_pow_properties;

    let mut value: usize = 1;
    let mut i: usize = 0;

    while i < exp
        invariant
            i <= exp,
            value == pow_spec(num as nat, i as nat),
            pow_spec(num as nat, exp as nat) <= usize::MAX,
        decreases exp - i,
    {
        proof {
            lemma_pow_step_in_bounds(num as nat, i as nat, exp as nat);
        }
        value = value * num;
        i = i + 1;
    }

    value
}

/// The next partial product equals the next power and still fits under the
/// bound given by the full power.
proof fn lemma_pow_step_in_bounds(num: nat, done: nat, exp: nat)
    requires
        done < exp,
        pow_spec(num, exp) <= usize::MAX,
    ensures
        pow_spec(num, done) * num == pow_spec(num, (done + 1) as nat),
        pow_spec(num, (done + 1) as nat) <= usize::MAX,
{
    broadcast use vstd::arithmetic::power::group_pow_properties;

    reveal(pow_int);
    assert(pow_int(num as int, (done + 1) as nat) == num * pow_int(num as int, done));
    if num == 0 {
        assert(pow_spec(num, (done + 1) as nat) == 0);
    } else {
        lemma_pow_increases(num, (done + 1) as nat, exp);
    }
}

} // verus!
