//! The pooled escrow: contributions gather until a fixed cap is met exactly,
//! then funds and token credits are handed over in two transfers.
//!
//! The engine decides; it moves nothing itself. Where a transfer is due it
//! says so in the [`Step`] it returns, and its owner reports the outcome of
//! that transfer with [`PooledEscrow::finalize_transfer`].

use crate::holdings::{
    amount_of, credit, credited, distinct, find_holder, holdings_of, lemma_amount_within_total,
    lemma_credited, total, Holdings,
};
use vstd::prelude::*;

verus! {

/// Where the pool stands.
#[derive(Clone, Copy, Debug, PartialEq, Eq, Structural)]
pub enum Phase {
    /// Taking contributions.
    Accepting,
    /// The cap is met and a transfer is awaited.
    AtCap,
    /// Both transfers went through and the pool was emptied.
    Settled,
    /// A transfer failed. The pool is full and waits for another try or a
    /// rollback.
    Stuck,
}

/// One of the two transfers that settle a full pool.
#[derive(Clone, Copy, Debug, PartialEq, Eq, Structural)]
pub enum Leg {
    Funds,
    Tokens,
}

/// Why a payment fails.
#[derive(Clone, Copy, Debug, PartialEq, Eq, Structural)]
pub enum PaymentError {
    /// The payment would take the pool over the cap. Nothing was recorded.
    CapExceeded,
    /// The payment filled the pool and was recorded, but a transfer failed.
    FinalizationFailed,
}

/// What the engine tells its owner after each call.
#[derive(Clone, Copy, Debug, PartialEq, Eq, Structural)]
pub enum Step {
    /// The payment has succeeded; nothing is left to do.
    Accepted,
    /// The payment has failed.
    Rejected(PaymentError),
    /// Move this many funds to the destination and report whether it worked.
    MoveFunds(u64),
    /// Move this many token credits to the destination and report whether it
    /// worked.
    MoveTokens(u64),
}

/// A pool that settles when its contributions meet the cap exactly.
pub struct PooledEscrow {
    cap: u64,
    current_amount: u64,
    temp_tokens: u64,
    contributions: Vec<(String, u64)>,
    phase: Phase,
    awaiting: Leg,
}

/// A pool in mathematical terms.
pub struct PoolView {
    /// The amount at which the pool settles.
    pub cap: nat,
    /// What the pool holds.
    pub current_amount: nat,
    /// Token credits that are not handed over yet.
    pub temp_tokens: nat,
    /// Party and cumulative amount, in order of first contribution.
    pub contributions: Holdings,
    pub phase: Phase,
    /// The transfer whose outcome is awaited; `Funds` outside `AtCap`.
    pub awaiting: Leg,
}

impl PoolView {
    /// An empty pool.
    pub open spec fn fresh(cap: nat) -> PoolView {
        PoolView {
            cap,
            current_amount: 0,
            temp_tokens: 0,
            contributions: Seq::empty(),
            phase: Phase::Accepting,
            awaiting: Leg::Funds,
        }
    }

    /// What holds of every pool: the contributions are those of distinct
    /// parties and sum to what the pool holds, which is within the cap and
    /// covered by token credits; the phase fits the amounts; and the amounts
    /// fit in 64 bits.
    pub open spec fn well_formed(self) -> bool {
        &&& self.cap <= u64::MAX
        &&& self.temp_tokens <= u64::MAX
        &&& distinct(self.contributions)
        &&& total(self.contributions) == self.current_amount
        &&& self.current_amount <= self.cap
        &&& self.current_amount <= self.temp_tokens
        &&& self.phase is Accepting ==> self.current_amount < self.cap || self.current_amount == 0
        &&& self.phase is AtCap || self.phase is Stuck ==> self.current_amount == self.cap
        &&& self.phase is Settled ==> self.current_amount == 0 && self.temp_tokens == 0
            && self.contributions.len() == 0
        &&& !(self.phase is AtCap) ==> self.awaiting is Funds
    }

    /// A payment of `amount` fits under the cap.
    pub open spec fn takes(self, amount: nat) -> bool {
        self.current_amount + amount <= self.cap
    }

    /// The pool after a payment of `amount` by `party`: unchanged if the
    /// payment does not fit; else the payment is recorded, and if it fills
    /// the pool, the transfer of the funds is awaited.
    pub open spec fn paid(self, party: Seq<char>, amount: nat) -> PoolView {
        if !self.takes(amount) {
            self
        } else {
            PoolView {
                cap: self.cap,
                current_amount: self.current_amount + amount,
                temp_tokens: self.temp_tokens + amount,
                contributions: credited(self.contributions, party, amount),
                phase: if self.current_amount + amount == self.cap {
                    Phase::AtCap
                } else {
                    Phase::Accepting
                },
                awaiting: Leg::Funds,
            }
        }
    }

    /// What the engine answers to a payment of `amount`.
    pub open spec fn payment_step(self, amount: nat) -> Step {
        if !self.takes(amount) {
            Step::Rejected(PaymentError::CapExceeded)
        } else if self.current_amount + amount == self.cap {
            Step::MoveFunds(self.cap as u64)
        } else {
            Step::Accepted
        }
    }

    /// The pool after the awaited transfer is reported. A failure leaves
    /// every amount as it is and the pool stuck. After the funds the tokens
    /// are due. Only when both have gone through is the pool emptied.
    pub open spec fn reported(self, moved: bool) -> PoolView {
        if !(self.phase is AtCap) {
            self
        } else if !moved {
            PoolView { phase: Phase::Stuck, awaiting: Leg::Funds, ..self }
        } else if self.awaiting is Funds {
            PoolView { awaiting: Leg::Tokens, ..self }
        } else {
            PoolView {
                cap: self.cap,
                current_amount: 0,
                temp_tokens: 0,
                contributions: Seq::empty(),
                phase: Phase::Settled,
                awaiting: Leg::Funds,
            }
        }
    }

    /// What the engine answers to the report of the awaited transfer.
    pub open spec fn report_step(self, moved: bool) -> Step {
        if !moved {
            Step::Rejected(PaymentError::FinalizationFailed)
        } else if self.awaiting is Funds {
            Step::MoveTokens(self.temp_tokens as u64)
        } else {
            Step::Accepted
        }
    }

    /// The pool after a rollback: nothing held, nobody recorded, the token
    /// credits as they were.
    pub open spec fn rolled_back(self) -> PoolView {
        PoolView {
            cap: self.cap,
            current_amount: 0,
            temp_tokens: self.temp_tokens,
            contributions: Seq::empty(),
            phase: Phase::Accepting,
            awaiting: Leg::Funds,
        }
    }

    /// The pool after every transfer that is due has gone through.
    pub open spec fn settled_in_full(self) -> PoolView {
        if self.phase is AtCap {
            self.reported(true).reported(true)
        } else {
            self
        }
    }

    /// The pool after a series of payments, first to last, where every
    /// transfer that falls due goes through.
    pub open spec fn run(self, payments: Seq<(Seq<char>, nat)>) -> PoolView
        decreases payments.len(),
    {
        if payments.len() == 0 {
            self
        } else {
            self.run(payments.drop_last()).paid(
                payments.last().0,
                payments.last().1,
            ).settled_in_full()
        }
    }
}

impl View for PooledEscrow {
    type V = PoolView;

    closed spec fn view(&self) -> PoolView {
        PoolView {
            cap: self.cap as nat,
            current_amount: self.current_amount as nat,
            temp_tokens: self.temp_tokens as nat,
            contributions: holdings_of(self.contributions@),
            phase: self.phase,
            awaiting: self.awaiting,
        }
    }
}

impl PooledEscrow {
    /// An empty pool that settles at `cap`.
    pub fn new(cap: u64) -> (pool: PooledEscrow)
        ensures
            pool@ == PoolView::fresh(cap as nat),
            pool@.well_formed(),
    {
        let pool = PooledEscrow {
            cap,
            current_amount: 0,
            temp_tokens: 0,
            contributions: Vec::new(),
            phase: Phase::Accepting,
            awaiting: Leg::Funds,
        };
        assert(pool@.contributions =~= Seq::empty());
        pool
    }

    /// The amount at which the pool settles.
    pub fn cap(&self) -> (cap: u64)
        ensures
            cap == self@.cap,
    {
        self.cap
    }

    /// What the pool holds.
    pub fn current_amount(&self) -> (amount: u64)
        ensures
            amount == self@.current_amount,
    {
        self.current_amount
    }

    /// Token credits that are not handed over yet.
    pub fn temp_tokens(&self) -> (tokens: u64)
        ensures
            tokens == self@.temp_tokens,
    {
        self.temp_tokens
    }

    /// Where the pool stands.
    pub fn phase(&self) -> (phase: Phase)
        ensures
            phase == self@.phase,
    {
        self.phase
    }

    /// The recorded contributions, in order of first contribution.
    pub fn contributions(&self) -> (entries: &Vec<(String, u64)>)
        ensures
            holdings_of(entries@) == self@.contributions,
    {
        &self.contributions
    }

    /// What `party` has contributed; zero if it has not.
    pub fn contribution_of(&self, party: &str) -> (amount: u64)
        ensures
            amount == amount_of(self@.contributions, party@),
    {
        let key = party.to_owned();
        match find_holder(&self.contributions, &key) {
            Some(i) => self.contributions[i].1,
            None => 0,
        }
    }

    /// Takes a payment of `amount` from `party`.
    ///
    /// A payment that would take the pool over the cap is refused and
    /// nothing changes. Any other payment is recorded at once: the pool and
    /// the token credits grow by `amount`. If that fills the pool, the
    /// transfer of the funds is due, whether or not one was asked for
    /// before.
    ///
    /// The token credits must have room for a payment that fits.
    pub fn receive_payment(&mut self, party: &str, amount: u64) -> (step: Step)
        requires
            old(self)@.well_formed(),
            old(self)@.takes(amount as nat) ==> old(self)@.temp_tokens + amount <= u64::MAX,
        ensures
            final(self)@ == old(self)@.paid(party@, amount as nat),
            step == old(self)@.payment_step(amount as nat),
            final(self)@.well_formed(),
            old(self)@.current_amount + amount > old(self)@.cap ==> {
                &&& step == Step::Rejected(PaymentError::CapExceeded)
                &&& *final(self) == *old(self)
            },
            old(self)@.current_amount + amount == old(self)@.cap ==> {
                &&& step == Step::MoveFunds(old(self)@.cap as u64)
                &&& final(self)@.phase is AtCap
            },
            old(self)@.current_amount + amount < old(self)@.cap ==> {
                &&& step == Step::Accepted
                &&& final(self)@.phase is Accepting
            },
            old(self)@.current_amount + amount <= old(self)@.cap ==> {
                &&& final(self)@.current_amount == old(self)@.current_amount + amount
                &&& final(self)@.temp_tokens == old(self)@.temp_tokens + amount
                &&& amount_of(final(self)@.contributions, party@) == amount_of(
                    old(self)@.contributions,
                    party@,
                ) + amount
            },
    {
        if amount > self.cap - self.current_amount {
            return Step::Rejected(PaymentError::CapExceeded);
        }
        proof {
            lemma_amount_within_total(self@.contributions, party@);
            lemma_credited(self@.contributions, party@, amount as nat);
        }
        credit(&mut self.contributions, party, amount);
        self.current_amount = self.current_amount + amount;
        self.temp_tokens = self.temp_tokens + amount;
        self.awaiting = Leg::Funds;
        if self.current_amount == self.cap {
            self.phase = Phase::AtCap;
            Step::MoveFunds(self.current_amount)
        } else {
            self.phase = Phase::Accepting;
            Step::Accepted
        }
    }

    /// Goes on with the settlement, given whether the transfer that was
    /// asked for last went through.
    ///
    /// A failed transfer ends the settlement: every amount stays, the pool
    /// is stuck, and the payment that filled it has failed. After the funds
    /// the token credits are due. When they too have gone through, the pool
    /// is emptied and the payment has succeeded.
    pub fn finalize_transfer(&mut self, moved: bool) -> (step: Step)
        requires
            old(self)@.well_formed(),
            old(self)@.phase is AtCap,
        ensures
            final(self)@ == old(self)@.reported(moved),
            step == old(self)@.report_step(moved),
            final(self)@.well_formed(),
            !moved ==> {
                &&& step == Step::Rejected(PaymentError::FinalizationFailed)
                &&& final(self)@.phase is Stuck
                &&& final(self)@.current_amount == old(self)@.current_amount
                &&& final(self)@.temp_tokens == old(self)@.temp_tokens
                &&& final(self)@.contributions == old(self)@.contributions
            },
            moved && old(self)@.awaiting is Funds ==> {
                &&& step == Step::MoveTokens(old(self)@.temp_tokens as u64)
                &&& final(self)@.phase is AtCap
                &&& final(self)@.current_amount == old(self)@.current_amount
                &&& final(self)@.temp_tokens == old(self)@.temp_tokens
                &&& final(self)@.contributions == old(self)@.contributions
            },
            moved && old(self)@.awaiting is Tokens ==> {
                &&& step == Step::Accepted
                &&& final(self)@.phase is Settled
                &&& final(self)@.current_amount == 0
                &&& final(self)@.temp_tokens == 0
                &&& final(self)@.contributions.len() == 0
            },
    {
        if !moved {
            self.phase = Phase::Stuck;
            self.awaiting = Leg::Funds;
            return Step::Rejected(PaymentError::FinalizationFailed);
        }
        match self.awaiting {
            Leg::Funds => {
                self.awaiting = Leg::Tokens;
                Step::MoveTokens(self.temp_tokens)
            },
            Leg::Tokens => {
                self.current_amount = 0;
                self.temp_tokens = 0;
                self.contributions = Vec::new();
                self.phase = Phase::Settled;
                self.awaiting = Leg::Funds;
                assert(self@.contributions =~= Seq::empty());
                Step::Accepted
            },
        }
    }

    /// Empties the pool by hand: nothing held, nobody recorded. The token
    /// credits stay as they are, to be handed out by the operator.
    pub fn rollback(&mut self)
        ensures
            final(self)@ == old(self)@.rolled_back(),
            final(self)@.current_amount == 0,
            final(self)@.contributions.len() == 0,
            final(self)@.temp_tokens == old(self)@.temp_tokens,
            final(self)@.cap == old(self)@.cap,
            final(self)@.phase is Accepting,
            old(self)@.well_formed() ==> final(self)@.well_formed(),
    {
        self.current_amount = 0;
        self.contributions = Vec::new();
        self.phase = Phase::Accepting;
        self.awaiting = Leg::Funds;
        assert(self@.contributions =~= Seq::empty());
    }
}

/// While no transfer fails and nobody rolls back, a pool that started empty
/// holds exactly what was paid in since it was last emptied, and owes as
/// many token credits.
proof fn lemma_run(cap: nat, payments: Seq<(Seq<char>, nat)>)
    requires
        total(payments) <= cap <= u64::MAX,
    ensures
        PoolView::fresh(cap).run(payments).well_formed(),
        PoolView::fresh(cap).run(payments).cap == cap,
        PoolView::fresh(cap).run(payments).temp_tokens
            == PoolView::fresh(cap).run(payments).current_amount,
        total(payments) < cap
            ==> PoolView::fresh(cap).run(payments).current_amount == total(payments),
        total(payments) == cap && payments.len() > 0
            ==> PoolView::fresh(cap).run(payments).current_amount == 0,
    decreases payments.len(),
{
    if payments.len() > 0 {
        let earlier = payments.drop_last();
        let before = PoolView::fresh(cap).run(earlier);
        lemma_run(cap, earlier);
        lemma_credited(before.contributions, payments.last().0, payments.last().1);
    }
}

/// Payments that add up to the cap exactly end in a settlement: once every
/// transfer has gone through, the pool holds nothing and owes no tokens.
pub proof fn law_exact_fill_settles(cap: nat, payments: Seq<(Seq<char>, nat)>)
    requires
        cap <= u64::MAX,
        payments.len() > 0,
        total(payments) == cap,
    ensures
        PoolView::fresh(cap).run(payments).current_amount == 0,
        PoolView::fresh(cap).run(payments).temp_tokens == 0,
        PoolView::fresh(cap).run(payments).well_formed(),
{
    lemma_run(cap, payments);
}

/// The payment that brings a pool to its cap asks for the funds to be moved,
/// and once both transfers are reported done the pool is settled and empty.
pub proof fn law_filling_payment_settles(pool: PoolView, party: Seq<char>, amount: nat)
    requires
        pool.well_formed(),
        pool.current_amount + amount == pool.cap,
        pool.temp_tokens + amount <= u64::MAX,
    ensures
        pool.payment_step(amount) == Step::MoveFunds(pool.cap as u64),
        pool.paid(party, amount).report_step(true) == Step::MoveTokens(
            (pool.temp_tokens + amount) as u64,
        ),
        pool.paid(party, amount).reported(true).report_step(true) == Step::Accepted,
        pool.paid(party, amount).settled_in_full() == (PoolView {
            cap: pool.cap,
            current_amount: 0,
            temp_tokens: 0,
            contributions: Seq::empty(),
            phase: Phase::Settled,
            awaiting: Leg::Funds,
        }),
{
}

} // verus!
