//! Who a call comes from, and the check that a call was signed.
use vstd::prelude::*;

verus! {

/// The origin of a dispatched call: issued by root, signed by an account, or carrying no
/// signer at all.
#[derive(PartialEq, Eq, Structural, Clone, Copy, Debug)]
pub enum Origin {
    Root,
    Signed(u64),
    Unsigned,
}

/// The error of a call whose origin is not the one it asks for.
#[derive(PartialEq, Eq, Structural, Clone, Copy, Debug)]
pub struct BadOrigin;

/// Returns the signer of a signed origin, and `BadOrigin` for any other origin.
pub fn ensure_signed(origin: Origin) -> (r: Result<u64, BadOrigin>)
    ensures
        match origin {
            Origin::Signed(who) => r == Ok::<u64, BadOrigin>(who),
            _ => r == Err::<u64, BadOrigin>(BadOrigin),
        },
{
    match origin {
        Origin::Signed(who) => Ok(who),
        _ => Err(BadOrigin),
    }
}

} // verus!
