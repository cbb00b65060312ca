use crate::errors::BountyError;
use vstd::prelude::*;

verus! {

/// What moving `amount` from one balance to another leaves in the two, or
/// `InsufficientFunds` where the paying balance is too small.
pub open spec fn transfer_spec(from: u64, to: u64, amount: u64) -> Result<
    (u64, u64),
    BountyError,
> {
    if from < amount {
        Err(BountyError::InsufficientFunds)
    } else {
        Ok(((from - amount) as u64, (to + amount) as u64))
    }
}

/// Moves `amount` from one balance to the other, or changes neither.
pub fn transfer(from: &mut u64, to: &mut u64, amount: u64) -> (r: Result<
    (),
    BountyError,
>)
    requires
        *old(from) >= amount ==> *old(to) + amount <= u64::MAX,
    ensures
        match transfer_spec(*old(from), *old(to), amount) {
            Ok(after) => r is Ok && *final(from) == after.0 && *final(to) == after.1,
            Err(e) => r == Err::<(), BountyError>(e) && *final(from) == *old(from)
                && *final(to) == *old(to),
        },
        r is Ok ==> *final(from) + *final(to) == *old(from) + *old(to),
{
    if *from < amount {
        return Err(BountyError::InsufficientFunds);
    }
    *from = *from - amount;
    *to = *to + amount;
    Ok(())
}

} // verus!
