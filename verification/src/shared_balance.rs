//! A token ledger: one account, the first to call `init`, receives the whole supply, and
//! signed accounts then move tokens between one another with `transfer`.
use vstd::prelude::*;
use std::collections::HashMap;
use crate::ledger_sum::{balance_in, total_of, lemma_total_empty, lemma_total_insert, lemma_one_le_total, lemma_two_le_total};
use crate::origin::{Origin, ensure_signed};
use crate::balances_s::Traitz;

verus! {

/// The supply that the ledger starts with.
pub const DEFAULT_TOTAL_SUPPLY: u64 = 21000000;

/// The errors of this ledger.
#[derive(PartialEq, Eq, Structural, Clone, Copy, Debug)]
pub enum Error {
    /// Attempted to initialize the token after it had already been initialized.
    AlreadyInitialized,
    /// Attempted to transfer more funds than were available.
    InsufficientFunds,
}

/// Why a dispatched call failed.
#[derive(PartialEq, Eq, Structural, Clone, Copy, Debug)]
pub enum DispatchError {
    /// The call was not signed.
    BadOrigin,
    /// The ledger refused the call.
    Module(Error),
}

/// What the ledger reports.
#[derive(PartialEq, Eq, Structural, Clone, Copy, Debug)]
pub enum Event {
    /// Token was initialized by user.
    Initialized(u64),
    /// Tokens successfully transferred between users: from, to, value.
    Transfer(u64, u64, u64),
}

/// The state of the ledger as a mathematical value.
pub ghost struct LedgerState {
    /// The balances stored so far; an account that has none has a balance of zero.
    pub balances: Map<u64, u64>,
    pub total_supply: u64,
    pub initialized: bool,
    /// Every event deposited, oldest first.
    pub events: Seq<Event>,
}

impl LedgerState {
    /// The balance of `who`.
    pub open spec fn balance_of(self, who: u64) -> nat {
        balance_in(self.balances, who)
    }

    /// The sum of all balances.
    pub open spec fn total_issuance(self) -> nat {
        total_of(self.balances)
    }

    /// The state every ledger starts in.
    pub open spec fn genesis() -> LedgerState {
        LedgerState {
            balances: Map::empty(),
            total_supply: DEFAULT_TOTAL_SUPPLY,
            initialized: false,
            events: Seq::empty(),
        }
    }

    /// The stored balances are finitely many, as those of any ledger are.
    pub open spec fn wf(self) -> bool {
        self.balances.dom().finite()
    }

    /// The sum of all balances is the whole supply once the token is initialized, and zero
    /// before.
    pub open spec fn supply_consistent(self) -> bool {
        self.total_issuance() == if self.initialized {
            self.total_supply as nat
        } else {
            0
        }
    }

    /// What `init` called from `origin` leaves and returns.
    pub open spec fn init_step(self, origin: Origin) -> (LedgerState, Result<(), DispatchError>) {
        match origin {
            Origin::Signed(who) => if self.initialized {
                (self, Err(DispatchError::Module(Error::AlreadyInitialized)))
            } else {
                (
                    LedgerState {
                        balances: self.balances.insert(who, self.total_supply),
                        initialized: true,
                        ..self
                    },
                    Ok(()),
                )
            },
            _ => (self, Err(DispatchError::BadOrigin)),
        }
    }

    /// `transfer` panics on this input: the receiver's new balance would not fit in a `u64`.
    pub open spec fn transfer_overflows(self, origin: Origin, to: u64, value: u64) -> bool {
        match origin {
            Origin::Signed(from) => value <= self.balance_of(from) && self.balance_of(to)
                + value > u64::MAX,
            _ => false,
        }
    }

    /// What `transfer` of `value` to `to`, called from `origin`, leaves and returns. Both
    /// balances are read before either is written, so a transfer to oneself adds `value`.
    pub open spec fn transfer_step(self, origin: Origin, to: u64, value: u64) -> (
        LedgerState,
        Result<(), DispatchError>,
    ) {
        match origin {
            Origin::Signed(from) => if self.balance_of(from) < value {
                (self, Err(DispatchError::Module(Error::InsufficientFunds)))
            } else {
                (
                    LedgerState {
                        balances: self.balances.insert(
                            from,
                            (self.balance_of(from) - value) as u64,
                        ).insert(to, (self.balance_of(to) + value) as u64),
                        events: self.events.push(Event::Transfer(from, to, value)),
                        ..self
                    },
                    Ok(()),
                )
            },
            _ => (self, Err(DispatchError::BadOrigin)),
        }
    }
}

/// The ledger pallet: its storage and its calls.
pub struct Module {
    balances: HashMap<u64, u64>,
    total_supply: u64,
    init: bool,
    events: Vec<Event>,
}

impl View for Module {
    type V = LedgerState;

    closed spec fn view(&self) -> LedgerState {
        LedgerState {
            balances: self.balances@,
            total_supply: self.total_supply,
            initialized: self.init,
            events: self.events@,
        }
    }
}

impl Module {
    /// A ledger at genesis: no balances, the default supply, not initialized, no events.
    pub fn new() -> (m: Module)
        ensures
            m@ == LedgerState::genesis(),
            m@.wf(),
    {
        Module {
            balances: HashMap::new(),
            total_supply: DEFAULT_TOTAL_SUPPLY,
            init: false,
            events: Vec::new(),
        }
    }

    /// The balance of `who`, zero for an account that has none stored.
    pub fn get_balance(&self, who: u64) -> (r: u64)
        ensures
            r == self@.balance_of(who),
    {
        match self.balances.get(&who) {
            Some(v) => *v,
            None => 0,
        }
    }

    /// The total supply.
    pub fn total_supply(&self) -> (r: u64)
        ensures
            r == self@.total_supply,
    {
        self.total_supply
    }

    /// Whether the token has been initialized.
    pub fn is_init(&self) -> (r: bool)
        ensures
            r == self@.initialized,
    {
        self.init
    }

    /// Every event deposited, oldest first.
    pub fn events(&self) -> (r: &Vec<Event>)
        ensures
            r@ == self@.events,
    {
        &self.events
    }

    fn deposit_event(&mut self, event: Event)
        ensures
            final(self)@ == (LedgerState { events: old(self)@.events.push(event), ..old(self)@ }),
    {
        self.events.push(event);
    }

    fn put_balance(&mut self, who: u64, value: u64)
        ensures
            final(self)@ == (LedgerState {
                balances: old(self)@.balances.insert(who, value),
                ..old(self)@
            }),
    {
        self.balances.insert(who, value);
    }

    /// Initializes the token: the signer receives the total supply. Fails with `BadOrigin`
    /// for an unsigned call and with `AlreadyInitialized` for every call after the first
    /// that succeeded.
    pub fn init(&mut self, origin: Origin) -> (r: Result<(), DispatchError>)
        ensures
            (final(self)@, r) == old(self)@.init_step(origin),
            final(self)@.wf(),
    {
        let sender = match ensure_signed(origin) {
            Ok(who) => who,
            Err(_) => return Err(DispatchError::BadOrigin),
        };
        if self.is_init() {
            return Err(DispatchError::Module(Error::AlreadyInitialized));
        }
        let supply = self.total_supply();
        self.put_balance(sender, supply);
        self.init = true;
        Ok(())
    }

    /// Transfers `value` tokens from the signer to `to`. Fails with `BadOrigin` for an
    /// unsigned call and with `InsufficientFunds` where the signer holds less than `value`.
    pub fn transfer(&mut self, origin: Origin, to: u64, value: u64) -> (r: Result<
        (),
        DispatchError,
    >)
        requires
            !old(self)@.transfer_overflows(origin, to, value),
        ensures
            (final(self)@, r) == old(self)@.transfer_step(origin, to, value),
            final(self)@.wf(),
    {
        let sender = match ensure_signed(origin) {
            Ok(who) => who,
            Err(_) => return Err(DispatchError::BadOrigin),
        };
        let sender_balance = self.get_balance(sender);
        let receiver_balance = self.get_balance(to);
        let updated_from_balance = match sender_balance.checked_sub(value) {
            Some(b) => b,
            None => return Err(DispatchError::Module(Error::InsufficientFunds)),
        };
        // The receiver's new balance fits: `requires` leaves out the inputs where it would not.
        let updated_to_balance = receiver_balance + value;
        self.put_balance(sender, updated_from_balance);
        self.put_balance(to, updated_to_balance);
        self.deposit_event(Event::Transfer(sender, to, value));
        Ok(())
    }
}

impl Traitz for Module {
    /// The total supply of this ledger.
    fn bals(&self) -> (r: u64)
        ensures
            r == self@.total_supply,
    {
        self.total_supply()
    }

    /// This ledger keeps its balances to itself: the call leaves it unchanged.
    fn insertz(&mut self, key: u64, val: u64)
        ensures
            final(self)@ == old(self)@,
    {
    }
}

/// A ledger starts with no tokens issued and not initialized, so its supply is consistent.
pub proof fn law_genesis_consistent()
    ensures
        LedgerState::genesis().supply_consistent(),
        LedgerState::genesis().wf(),
        forall|who: u64| LedgerState::genesis().balance_of(who) == 0,
{
    lemma_total_empty();
}

/// A call that fails leaves the ledger as it was.
pub proof fn law_failed_calls_change_nothing(s: LedgerState, origin: Origin, to: u64, value: u64)
    ensures
        s.init_step(origin).1 is Err ==> s.init_step(origin).0 == s,
        s.transfer_step(origin, to, value).1 is Err ==> s.transfer_step(origin, to, value).0 == s,
{
}

/// Neither call changes the total supply; `init` deposits no event, and a `transfer` that
/// succeeds deposits exactly one, which names the sender, the receiver and the value.
pub proof fn law_supply_and_events(s: LedgerState, origin: Origin, to: u64, value: u64)
    ensures
        s.init_step(origin).0.total_supply == s.total_supply,
        s.init_step(origin).0.events == s.events,
        s.transfer_step(origin, to, value).0.total_supply == s.total_supply,
        s.transfer_step(origin, to, value).1 is Ok ==> origin is Signed
            && s.transfer_step(origin, to, value).0.events == s.events.push(
            Event::Transfer(origin->Signed_0, to, value),
        ),
{
}

/// The first `init` that succeeds credits its signer with the whole supply, and every later
/// `init` fails, whoever calls it.
pub proof fn law_init_only_once(s: LedgerState, first: Origin, second: Origin)
    requires
        s.init_step(first).1 is Ok,
    ensures
        first is Signed,
        s.init_step(first).0.initialized,
        s.init_step(first).0.balance_of(first->Signed_0) == s.total_supply,
        s.init_step(first).0.init_step(second).1 is Err,
        second is Signed ==> s.init_step(first).0.init_step(second).1 == Err::<(), DispatchError>(
            DispatchError::Module(Error::AlreadyInitialized),
        ),
{
}

/// A transfer between two distinct accounts moves `value` from one to the other: their sum,
/// every other balance and the sum of all balances stay as they were.
pub proof fn law_transfer_conserves(s: LedgerState, from: u64, to: u64, value: u64)
    requires
        s.wf(),
        from != to,
        s.transfer_step(Origin::Signed(from), to, value).1 is Ok,
        !s.transfer_overflows(Origin::Signed(from), to, value),
    ensures
        ({
            let t = s.transfer_step(Origin::Signed(from), to, value).0;
            &&& t.balance_of(from) == s.balance_of(from) - value
            &&& t.balance_of(to) == s.balance_of(to) + value
            &&& forall|k: u64| k != from && k != to ==> t.balance_of(k) == s.balance_of(k)
            &&& t.total_issuance() == s.total_issuance()
        }),
{
    let m1 = s.balances.insert(from, (s.balance_of(from) - value) as u64);
    lemma_total_insert(s.balances, from, (s.balance_of(from) - value) as u64);
    lemma_total_insert(m1, to, (s.balance_of(to) + value) as u64);
}

/// While the supply is consistent, a transfer between two distinct accounts cannot overflow
/// the receiver's balance: the whole supply fits in a `u64`.
pub proof fn law_consistent_transfer_fits(s: LedgerState, from: u64, to: u64, value: u64)
    requires
        s.wf(),
        s.supply_consistent(),
        from != to,
    ensures
        !s.transfer_overflows(Origin::Signed(from), to, value),
{
    lemma_two_le_total(s.balances, from, to);
}

/// Every call keeps the supply consistent, except a transfer of a nonzero value from an
/// account to itself.
pub proof fn law_supply_stays_consistent(s: LedgerState, origin: Origin, to: u64, value: u64)
    requires
        s.wf(),
        s.supply_consistent(),
        origin != Origin::Signed(to) || value == 0,
    ensures
        s.init_step(origin).0.supply_consistent(),
        s.init_step(origin).0.wf(),
        s.transfer_step(origin, to, value).0.supply_consistent(),
        s.transfer_step(origin, to, value).0.wf(),
{
    if let Origin::Signed(who) = origin {
        if !s.initialized {
            lemma_one_le_total(s.balances, who);
            lemma_total_insert(s.balances, who, s.total_supply);
        }
        if s.balance_of(who) >= value {
            if who != to {
                law_consistent_transfer_fits(s, who, to, value);
                law_transfer_conserves(s, who, to, value);
            } else {
                let m1 = s.balances.insert(who, (s.balance_of(who) - value) as u64);
                lemma_total_insert(s.balances, who, (s.balance_of(who) - value) as u64);
                lemma_total_insert(m1, to, (s.balance_of(to) + value) as u64);
            }
        }
    }
}

/// A transfer from an account to itself adds `value` to its balance: the sender's debit is
/// overwritten by the credit computed from the balance read before it.
pub proof fn law_self_transfer_adds(s: LedgerState, who: u64, value: u64)
    requires
        value <= s.balance_of(who),
        !s.transfer_overflows(Origin::Signed(who), who, value),
    ensures
        s.transfer_step(Origin::Signed(who), who, value).1 is Ok,
        s.transfer_step(Origin::Signed(who), who, value).0.balance_of(who) == s.balance_of(who)
            + value,
{
}

/// When `init` succeeds and how it fails: a signed call on a ledger not yet initialized
/// succeeds, whoever signs it, and credits the signer with the whole supply, leaving every
/// other balance as it was; a signed call on an initialized ledger fails with
/// `AlreadyInitialized`; any other call fails with `BadOrigin`.
pub proof fn law_init_outcome(s: LedgerState, origin: Origin)
    ensures
        (s.init_step(origin).1 is Ok) <==> (origin is Signed && !s.initialized),
        (s.init_step(origin).1 == Err::<(), DispatchError>(
            DispatchError::Module(Error::AlreadyInitialized),
        )) <==> (origin is Signed && s.initialized),
        (s.init_step(origin).1 == Err::<(), DispatchError>(DispatchError::BadOrigin)) <==> !(
        origin is Signed),
        s.init_step(origin).1 is Ok ==> ({
            let t = s.init_step(origin).0;
            &&& t.initialized
            &&& t.total_supply == s.total_supply
            &&& t.balance_of(origin->Signed_0) == s.total_supply
            &&& forall|k: u64| k != origin->Signed_0 ==> t.balance_of(k) == s.balance_of(k)
            &&& t.events == s.events
        }),
{
}

/// When `transfer` succeeds and how it fails: a signed call whose sender holds at least
/// `value` succeeds, whoever the receiver is and whatever its balance; a signed call whose
/// sender holds less fails with `InsufficientFunds`; any other call fails with `BadOrigin`.
/// A success debits the sender and credits the receiver by `value` when they differ, credits
/// `value` when they are one account, leaves every other balance and the supply as they were,
/// and deposits `Transfer(from, to, value)`.
pub proof fn law_transfer_outcome(s: LedgerState, origin: Origin, to: u64, value: u64)
    requires
        !s.transfer_overflows(origin, to, value),
    ensures
        (s.transfer_step(origin, to, value).1 is Ok) <==> (origin is Signed && s.balance_of(
            origin->Signed_0,
        ) >= value),
        (s.transfer_step(origin, to, value).1 == Err::<(), DispatchError>(
            DispatchError::Module(Error::InsufficientFunds),
        )) <==> (origin is Signed && s.balance_of(origin->Signed_0) < value),
        (s.transfer_step(origin, to, value).1 == Err::<(), DispatchError>(DispatchError::BadOrigin))
            <==> !(origin is Signed),
        s.transfer_step(origin, to, value).1 is Ok ==> ({
            let from = origin->Signed_0;
            let t = s.transfer_step(origin, to, value).0;
            &&& from != to ==> t.balance_of(from) == s.balance_of(from) - value
            &&& from != to ==> t.balance_of(to) == s.balance_of(to) + value
            &&& from == to ==> t.balance_of(to) == s.balance_of(to) + value
            &&& forall|k: u64| k != from && k != to ==> t.balance_of(k) == s.balance_of(k)
            &&& t.total_supply == s.total_supply
            &&& t.initialized == s.initialized
            &&& t.events == s.events.push(Event::Transfer(from, to, value))
        }),
{
}

} // verus!
