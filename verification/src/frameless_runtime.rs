//! A dead simple runtime that has a single boolean storage value and three transactions.
//! The transactions available are SetTrue, Clear, and Toggle.
use vstd::prelude::*;
use std::collections::HashSet;

verus! {

/// An index to a block.
pub type BlockNumber = u32;

/// The type for looking up accounts.
pub type AccountIndex = u32;

/// Index of a transaction in the chain.
pub type Index = u32;

/// A hash of some data used by the chain.
pub type Hash = [u8; 32];

/// The average time between two blocks, in milliseconds.
pub const MILLISECS_PER_BLOCK: u64 = 6000;

/// The duration of a slot, in milliseconds.
pub const SLOT_DURATION: u64 = MILLISECS_PER_BLOCK;

/// The length of an epoch, in blocks.
pub const EPOCH_DURATION_IN_BLOCKS: u32 = 100;

/// The probability that a slot has a primary block, as numerator and denominator: 1 in 4
/// blocks (on average, not counting collisions) will be primary blocks.
pub const PRIMARY_PROBABILITY: (u64, u64) = (1, 4);

/// The transactions of this runtime.
#[derive(Debug, PartialEq, Eq, Structural, Clone, Copy)]
pub enum FramelessTransaction {
    /// Sets the storage value to true.
    SetTrue,
    /// Sets the storage value to false.
    Clear,
    /// Negates the storage value.
    Toggle,
}

/// The storage value after `tx` is applied to `prev`.
pub open spec fn spec_next_state(prev: bool, tx: FramelessTransaction) -> bool {
    match tx {
        FramelessTransaction::SetTrue => true,
        FramelessTransaction::Clear => false,
        FramelessTransaction::Toggle => !prev,
    }
}

/// The storage value after `tx` is applied to `prev`.
pub fn next_state(prev: bool, tx: &FramelessTransaction) -> (r: bool)
    ensures
        r == spec_next_state(prev, *tx),
{
    match tx {
        FramelessTransaction::SetTrue => true,
        FramelessTransaction::Clear => false,
        FramelessTransaction::Toggle => !prev,
    }
}

/// Why a transaction is refused.
#[derive(Debug, PartialEq, Eq, Structural, Clone, Copy)]
pub enum TransactionValidityError {
    /// The transaction is invalid.
    Invalid,
    /// Its validity cannot be determined.
    Unknown,
}

/// The validity of a transaction that is valid.
#[derive(Debug)]
pub struct ValidTransaction {
    pub priority: u64,
    pub requires: Vec<Vec<u8>>,
    pub provides: Vec<Vec<u8>>,
    pub longevity: u64,
    pub propagate: bool,
}

/// The outcome of checking the inherents of a block.
#[derive(Debug)]
pub struct CheckInherentsResult {
    pub okay: bool,
    pub fatal_error: bool,
    /// The errors found, each under the identifier of its inherent.
    pub errors: Vec<([u8; 8], Vec<u8>)>,
}

/// The version of a runtime.
#[derive(Debug, Clone, Copy)]
pub struct RuntimeVersion {
    pub spec_name: &'static str,
    pub impl_name: &'static str,
    pub authoring_version: u32,
    pub spec_version: u32,
    pub impl_version: u32,
}

/// The version of a runtime compiled natively, with the versions it can author with.
#[derive(Debug)]
pub struct NativeVersion {
    pub runtime_version: RuntimeVersion,
    pub can_author_with: HashSet<u32>,
}

/// The configuration of block production.
#[derive(Debug)]
pub struct BabeConfiguration {
    pub slot_duration: u64,
    pub epoch_length: u64,
    /// The probability that a slot has a primary block, as numerator and denominator.
    pub c: (u64, u64),
    pub genesis_authorities: Vec<([u8; 32], u64)>,
    pub randomness: [u8; 32],
    pub secondary_slots: bool,
}

/// What `version` returns.
pub open spec fn is_this_version(v: RuntimeVersion) -> bool {
    &&& v.spec_name@ == "frameless-runtime"@
    &&& v.impl_name@ == "frameless-runtime"@
    &&& v.authoring_version == 1
    &&& v.spec_version == 1
    &&& v.impl_version == 1
}

/// The runtime, with its single boolean storage value.
pub struct Runtime {
    state: bool,
}

impl View for Runtime {
    type V = bool;

    closed spec fn view(&self) -> bool {
        self.state
    }
}

impl Runtime {
    /// The runtime at genesis: the storage value is false.
    pub fn new() -> (r: Runtime)
        ensures
            r@ == false,
    {
        Runtime { state: false }
    }

    /// The storage value.
    pub fn state(&self) -> (r: bool)
        ensures
            r == self@,
    {
        self.state
    }

    /// This runtime's version.
    pub fn version() -> (v: RuntimeVersion)
        ensures
            is_this_version(v),
    {
        RuntimeVersion {
            spec_name: "frameless-runtime",
            impl_name: "frameless-runtime",
            authoring_version: 1,
            spec_version: 1,
            impl_version: 1,
        }
    }

    /// Applies one transaction to the storage value. Every transaction applies.
    pub fn apply_extrinsic(&mut self, extrinsic: FramelessTransaction) -> (r: Result<
        (),
        TransactionValidityError,
    >)
        ensures
            r is Ok,
            final(self)@ == spec_next_state(old(self)@, extrinsic),
    {
        self.state = next_state(self.state, &extrinsic);
        Ok(())
    }

    /// This runtime uses no inherents: there are none to add to a block.
    pub fn inherent_extrinsics() -> (r: Vec<FramelessTransaction>)
        ensures
            r@ == Seq::<FramelessTransaction>::empty(),
    {
        Vec::new()
    }

    /// This runtime uses no inherents: every block passes the check.
    pub fn check_inherents(block: &[FramelessTransaction]) -> (r: CheckInherentsResult)
        ensures
            r.okay,
            !r.fatal_error,
            r.errors@.len() == 0,
    {
        CheckInherentsResult { okay: true, fatal_error: false, errors: Vec::new() }
    }

    /// The seed of randomness: all zeros.
    pub fn random_seed() -> (r: Hash)
        ensures
            forall|i: int| 0 <= i < 32 ==> r@[i] == 0,
    {
        [0u8; 32]
    }

    /// Any transaction of the correct type is valid, with priority 1, no tags required or
    /// provided, the longest longevity, and to be propagated.
    pub fn validate_transaction(tx: &FramelessTransaction) -> (r: Result<
        ValidTransaction,
        TransactionValidityError,
    >)
        ensures
            r matches Ok(v) && v.priority == 1 && v.requires@.len() == 0 && v.provides@.len()
                == 0 && v.longevity == u64::MAX && v.propagate,
    {
        Ok(
            ValidTransaction {
                priority: 1,
                requires: Vec::new(),
                provides: Vec::new(),
                longevity: u64::MAX,
                propagate: true,
            },
        )
    }

    /// The configuration of block production: the slot duration, the epoch length and the
    /// primary probability of this runtime, with the authorities and randomness given.
    pub fn configuration(genesis_authorities: Vec<([u8; 32], u64)>, randomness: [u8; 32]) -> (r:
        BabeConfiguration)
        ensures
            r.slot_duration == SLOT_DURATION,
            r.epoch_length == EPOCH_DURATION_IN_BLOCKS,
            r.c == PRIMARY_PROBABILITY,
            r.genesis_authorities@ == genesis_authorities@,
            r.randomness@ == randomness@,
            r.secondary_slots,
    {
        BabeConfiguration {
            slot_duration: SLOT_DURATION,
            epoch_length: EPOCH_DURATION_IN_BLOCKS as u64,
            c: PRIMARY_PROBABILITY,
            genesis_authorities,
            randomness,
            secondary_slots: true,
        }
    }
}

/// The version information used to identify this runtime when compiled natively.
pub fn native_version() -> (v: NativeVersion)
    ensures
        is_this_version(v.runtime_version),
        v.can_author_with@ == Set::<u32>::empty(),
{
    NativeVersion { runtime_version: Runtime::version(), can_author_with: HashSet::new() }
}

/// `SetTrue` and `Clear` forget the value before them: whatever it was, the first leaves
/// true and the second false.
pub proof fn law_set_and_clear_overwrite(prev: bool, other: bool)
    ensures
        spec_next_state(prev, FramelessTransaction::SetTrue) == spec_next_state(
            other,
            FramelessTransaction::SetTrue,
        ),
        spec_next_state(prev, FramelessTransaction::SetTrue),
        spec_next_state(prev, FramelessTransaction::Clear) == spec_next_state(
            other,
            FramelessTransaction::Clear,
        ),
        !spec_next_state(prev, FramelessTransaction::Clear),
{
}

/// Applying the same transaction twice: `Toggle` undoes itself, `SetTrue` and `Clear` are
/// idempotent.
pub proof fn law_repeat(prev: bool, tx: FramelessTransaction)
    ensures
        tx == FramelessTransaction::Toggle ==> spec_next_state(spec_next_state(prev, tx), tx)
            == prev,
        tx != FramelessTransaction::Toggle ==> spec_next_state(spec_next_state(prev, tx), tx)
            == spec_next_state(prev, tx),
{
}

/// `Toggle` always changes the value.
pub proof fn law_toggle_flips(prev: bool)
    ensures
        spec_next_state(prev, FramelessTransaction::Toggle) != prev,
{
}

} // verus!
