//! The campaign escrow: a raise with a cap and a deadline.
//!
//! The engine keeps no state of its own. Its owner hands in the campaign
//! state together with an investor's action, and gets back a decision and,
//! where the action was accepted, the state that follows.

use crate::decimal::{decimal_text, push_decimal};
use crate::holdings::{
    amount_of, copy_entries, credit, credited, distinct, has_distinct_addresses, holdings_of,
    holds, lemma_amount_within_total, lemma_credited, sums_to, total, Holdings,
};
use vstd::prelude::*;
use vstd::string::StringExecFns;

verus! {

/// The state of one campaign, as its owner stores it between calls.
#[derive(Clone, Debug, PartialEq, Eq)]
pub struct CampaignState {
    /// Identifier of the campaign.
    pub campaign_id: String,
    /// The most that may be raised, in smallest currency units.
    pub max_value: u64,
    /// What has been raised so far, in smallest currency units.
    pub current_raised: u64,
    /// Investments are taken up to and including this time (Unix seconds).
    pub deadline_unix: u64,
    /// Where the funds go once the objective is reached.
    pub treasury_address: String,
    /// Investor address and cumulative amount, in order of first investment.
    pub investments: Vec<(String, u64)>,
    /// Currency code that investments are made in.
    pub investment_currency: String,
    /// Issuer of the investment currency.
    pub investment_issuer: String,
    /// Currency code of the token handed to investors.
    pub token_currency: String,
    /// Issuer of the token.
    pub token_issuer: String,
}

/// The answer to one investment.
#[derive(Clone, Debug, PartialEq, Eq)]
pub struct InvestmentResult {
    pub accepted: bool,
    /// Why, in words.
    pub reason: String,
    /// Tokens to hand to the investor, one for each unit invested.
    pub token_amount: u64,
    /// The state that follows; present exactly when the investment is accepted.
    pub updated_state: Option<CampaignState>,
    /// The cap is reached: the funds go to the treasury now.
    pub send_to_treasury: bool,
}

/// The answer to a request to close the campaign.
#[derive(Clone, Debug, PartialEq, Eq)]
pub struct FinalizeResult {
    /// The campaign could be closed.
    pub success: bool,
    pub objective_reached: bool,
    /// Address and amount to pay back, in the order of `investments`.
    pub refunds: Vec<(String, u64)>,
    /// What goes to the treasury.
    pub treasury_amount: u64,
}

/// How an investment is judged.
#[derive(Clone, Copy, Debug, PartialEq, Eq, Structural)]
pub enum Verdict {
    /// The state is missing or does not add up.
    InvalidState,
    /// The deadline lies in the past.
    DeadlinePassed,
    /// The investment would take the raise over the cap.
    CapExceeded,
    /// Accepted, and the cap is not reached yet.
    Accepted,
    /// Accepted, and the raise now equals the cap.
    ObjectiveReached,
}

/// A campaign state in mathematical terms.
pub struct CampaignView {
    pub campaign_id: Seq<char>,
    pub max_value: nat,
    pub current_raised: nat,
    pub deadline_unix: nat,
    pub treasury_address: Seq<char>,
    pub investments: Holdings,
    pub investment_currency: Seq<char>,
    pub investment_issuer: Seq<char>,
    pub token_currency: Seq<char>,
    pub token_issuer: Seq<char>,
}

/// An investment result in mathematical terms.
pub struct InvestmentView {
    pub accepted: bool,
    pub reason: Seq<char>,
    pub token_amount: nat,
    pub updated_state: Option<CampaignView>,
    pub send_to_treasury: bool,
}

/// A finalize result in mathematical terms.
pub struct FinalizeView {
    pub success: bool,
    pub objective_reached: bool,
    pub refunds: Holdings,
    pub treasury_amount: nat,
}

impl View for CampaignState {
    type V = CampaignView;

    open spec fn view(&self) -> CampaignView {
        CampaignView {
            campaign_id: self.campaign_id@,
            max_value: self.max_value as nat,
            current_raised: self.current_raised as nat,
            deadline_unix: self.deadline_unix as nat,
            treasury_address: self.treasury_address@,
            investments: holdings_of(self.investments@),
            investment_currency: self.investment_currency@,
            investment_issuer: self.investment_issuer@,
            token_currency: self.token_currency@,
            token_issuer: self.token_issuer@,
        }
    }
}

impl View for InvestmentResult {
    type V = InvestmentView;

    open spec fn view(&self) -> InvestmentView {
        InvestmentView {
            accepted: self.accepted,
            reason: self.reason@,
            token_amount: self.token_amount as nat,
            updated_state: match self.updated_state {
                Some(state) => Some(state@),
                None => None,
            },
            send_to_treasury: self.send_to_treasury,
        }
    }
}

impl View for FinalizeResult {
    type V = FinalizeView;

    open spec fn view(&self) -> FinalizeView {
        FinalizeView {
            success: self.success,
            objective_reached: self.objective_reached,
            refunds: holdings_of(self.refunds@),
            treasury_amount: self.treasury_amount as nat,
        }
    }
}

impl CampaignView {
    /// The state adds up: every investor has one entry, the entries sum to
    /// what was raised, and what was raised is within the cap.
    pub open spec fn balanced(self) -> bool {
        &&& distinct(self.investments)
        &&& total(self.investments) == self.current_raised
        &&& self.current_raised <= self.max_value
    }

    /// The state after `sender` has invested `amount`.
    pub open spec fn invested(self, sender: Seq<char>, amount: nat) -> CampaignView {
        CampaignView {
            current_raised: self.current_raised + amount,
            investments: credited(self.investments, sender, amount),
            ..self
        }
    }
}

/// The state that a caller hands in, if any, in mathematical terms.
pub open spec fn snapshot(state: Option<&CampaignState>) -> Option<CampaignView> {
    match state {
        Some(s) => Some(s@),
        None => None,
    }
}

/// A new campaign: nothing raised, nobody invested.
pub open spec fn created(
    campaign_id: Seq<char>,
    max_value: nat,
    deadline_unix: nat,
    treasury_address: Seq<char>,
    investment_currency: Seq<char>,
    investment_issuer: Seq<char>,
    token_currency: Seq<char>,
    token_issuer: Seq<char>,
) -> CampaignView {
    CampaignView {
        campaign_id,
        max_value,
        current_raised: 0,
        deadline_unix,
        treasury_address,
        investments: Seq::empty(),
        investment_currency,
        investment_issuer,
        token_currency,
        token_issuer,
    }
}

/// The rules of investing, in the order in which they are tried.
pub open spec fn verdict_of(state: Option<CampaignView>, amount: nat, now: nat) -> Verdict {
    match state {
        None => Verdict::InvalidState,
        Some(s) => if !s.balanced() {
            Verdict::InvalidState
        } else if now > s.deadline_unix {
            Verdict::DeadlinePassed
        } else if s.current_raised + amount > s.max_value {
            Verdict::CapExceeded
        } else if s.current_raised + amount == s.max_value {
            Verdict::ObjectiveReached
        } else {
            Verdict::Accepted
        },
    }
}

impl Verdict {
    /// The investment goes through.
    pub open spec fn accepts(self) -> bool {
        self == Verdict::Accepted || self == Verdict::ObjectiveReached
    }

    /// The verdict in words. A refusal for the cap names the cap, what was
    /// raised and what was attempted.
    pub open spec fn text(self, max_value: nat, current_raised: nat, attempted: nat) -> Seq<char> {
        match self {
            Verdict::InvalidState => "Invalid state JSON"@,
            Verdict::DeadlinePassed => "Campaign deadline has passed"@,
            Verdict::CapExceeded => "Investment would exceed cap. Max: "@
                + decimal_text(max_value)
                + ", Current: "@
                + decimal_text(current_raised)
                + ", Attempted: "@
                + decimal_text(attempted),
            Verdict::Accepted => "Investment accepted"@,
            Verdict::ObjectiveReached => "Objective reached! Funds will be sent to treasury."@,
        }
    }

    /// Whether the investment goes through.
    pub fn is_accepted(&self) -> (yes: bool)
        ensures
            yes == self.accepts(),
    {
        match self {
            Verdict::Accepted => true,
            Verdict::ObjectiveReached => true,
            _ => false,
        }
    }

    /// The verdict in words, for the numbers of the state it was reached on
    /// and the amount that was attempted.
    pub fn message(&self, max_value: u64, current_raised: u64, attempted: u64) -> (words: String)
        ensures
            words@ == self.text(max_value as nat, current_raised as nat, attempted as nat),
    {
        match self {
            Verdict::InvalidState => String::from_str("Invalid state JSON"),
            Verdict::DeadlinePassed => String::from_str("Campaign deadline has passed"),
            Verdict::CapExceeded => {
                let mut words = String::from_str("Investment would exceed cap. Max: ");
                push_decimal(&mut words, max_value);
                words.append(", Current: ");
                push_decimal(&mut words, current_raised);
                words.append(", Attempted: ");
                push_decimal(&mut words, attempted);
                words
            },
            Verdict::Accepted => String::from_str("Investment accepted"),
            Verdict::ObjectiveReached => String::from_str(
                "Objective reached! Funds will be sent to treasury.",
            ),
        }
    }
}

/// The full answer to an investment.
pub open spec fn investment_outcome(
    state: Option<CampaignView>,
    sender: Seq<char>,
    amount: nat,
    now: nat,
) -> InvestmentView {
    let verdict = verdict_of(state, amount, now);
    let (max_value, current_raised) = match state {
        Some(s) => (s.max_value, s.current_raised),
        None => (0nat, 0nat),
    };
    InvestmentView {
        accepted: verdict.accepts(),
        reason: verdict.text(max_value, current_raised, amount),
        token_amount: if verdict.accepts() {
            amount
        } else {
            0
        },
        updated_state: if verdict.accepts() {
            Some(state->0.invested(sender, amount))
        } else {
            None
        },
        send_to_treasury: verdict == Verdict::ObjectiveReached,
    }
}

/// The full answer to a request to close the campaign.
pub open spec fn finalize_outcome(state: Option<CampaignView>, now: nat) -> FinalizeView {
    match state {
        Some(s) => if now <= s.deadline_unix {
            FinalizeView {
                success: false,
                objective_reached: false,
                refunds: Seq::empty(),
                treasury_amount: 0,
            }
        } else if s.current_raised >= s.max_value {
            FinalizeView {
                success: true,
                objective_reached: true,
                refunds: Seq::empty(),
                treasury_amount: s.current_raised,
            }
        } else {
            FinalizeView {
                success: true,
                objective_reached: false,
                refunds: s.investments,
                treasury_amount: 0,
            }
        },
        None => FinalizeView {
            success: false,
            objective_reached: false,
            refunds: Seq::empty(),
            treasury_amount: 0,
        },
    }
}

impl CampaignState {
    /// Whether the state adds up.
    pub fn is_balanced(&self) -> (ok: bool)
        ensures
            ok == self@.balanced(),
    {
        self.current_raised <= self.max_value && has_distinct_addresses(&self.investments)
            && sums_to(&self.investments, self.current_raised)
    }
}

/// A new campaign with nothing raised.
pub fn create_campaign_state(
    campaign_id: &str,
    max_value: u64,
    deadline_unix: u64,
    treasury_address: &str,
    investment_currency: &str,
    investment_issuer: &str,
    token_currency: &str,
    token_issuer: &str,
) -> (state: CampaignState)
    ensures
        state@ == created(
            campaign_id@,
            max_value as nat,
            deadline_unix as nat,
            treasury_address@,
            investment_currency@,
            investment_issuer@,
            token_currency@,
            token_issuer@,
        ),
        state@.balanced(),
{
    let state = CampaignState {
        campaign_id: campaign_id.to_owned(),
        max_value,
        current_raised: 0,
        deadline_unix,
        treasury_address: treasury_address.to_owned(),
        investments: Vec::new(),
        investment_currency: investment_currency.to_owned(),
        investment_issuer: investment_issuer.to_owned(),
        token_currency: token_currency.to_owned(),
        token_issuer: token_issuer.to_owned(),
    };
    assert(state@.investments =~= Seq::empty());
    state
}

/// Judges an investment of `amount` at time `now` without carrying it out.
/// `None` stands for a state that could not be read.
pub fn assess_investment(state: Option<&CampaignState>, amount: u64, now: u64) -> (verdict: Verdict)
    ensures
        verdict == verdict_of(snapshot(state), amount as nat, now as nat),
{
    match state {
        None => Verdict::InvalidState,
        Some(s) => {
            if !s.is_balanced() {
                Verdict::InvalidState
            } else if now > s.deadline_unix {
                Verdict::DeadlinePassed
            } else if amount > s.max_value - s.current_raised {
                Verdict::CapExceeded
            } else if amount == s.max_value - s.current_raised {
                Verdict::ObjectiveReached
            } else {
                Verdict::Accepted
            }
        },
    }
}

/// Decides on an investment of `amount` by `sender` at time `now`.
///
/// The state handed in is never changed. `None` stands for a state that
/// could not be read; it is refused like one that does not add up. An
/// accepted investment earns one token per unit, and the state that follows
/// comes back in the result.
pub fn process_investment(
    state: Option<&CampaignState>,
    sender: &str,
    amount: u64,
    now: u64,
) -> (result: InvestmentResult)
    ensures
        result@ == investment_outcome(snapshot(state), sender@, amount as nat, now as nat),
        result.accepted ==> {
            &&& result.updated_state is Some
            &&& result.updated_state->0@.balanced()
            &&& result.token_amount == amount
        },
        !result.accepted ==> {
            &&& result.updated_state is None
            &&& result.token_amount == 0
            &&& !result.send_to_treasury
        },
        (state matches Some(s) ==> !s@.balanced()) ==> {
            &&& !result.accepted
            &&& result.reason@ == "Invalid state JSON"@
        },
        state matches Some(s) ==> (s@.balanced() ==> {
            &&& now > s.deadline_unix ==> {
                &&& !result.accepted
                &&& result.reason@ == "Campaign deadline has passed"@
            }
            &&& now <= s.deadline_unix && s.current_raised + amount > s.max_value ==> {
                &&& !result.accepted
                &&& result.reason@ == Verdict::CapExceeded.text(
                    s.max_value as nat,
                    s.current_raised as nat,
                    amount as nat,
                )
            }
            &&& now <= s.deadline_unix && s.current_raised + amount <= s.max_value ==> {
                &&& result.accepted
                &&& result.updated_state->0.current_raised == s.current_raised + amount
                &&& result.send_to_treasury <==> s.current_raised + amount == s.max_value
            }
        }),
{
    let verdict = assess_investment(state, amount, now);
    let (max_value, current_raised) = match state {
        Some(s) => (s.max_value, s.current_raised),
        None => (0, 0),
    };
    let reason = verdict.message(max_value, current_raised, amount);
    match state {
        Some(s) if verdict.is_accepted() => {
            let mut investments = copy_entries(&s.investments);
            proof {
                lemma_amount_within_total(s@.investments, sender@);
                lemma_credited(s@.investments, sender@, amount as nat);
            }
            credit(&mut investments, sender, amount);
            let updated = CampaignState {
                campaign_id: s.campaign_id.clone(),
                max_value: s.max_value,
                current_raised: s.current_raised + amount,
                deadline_unix: s.deadline_unix,
                treasury_address: s.treasury_address.clone(),
                investments,
                investment_currency: s.investment_currency.clone(),
                investment_issuer: s.investment_issuer.clone(),
                token_currency: s.token_currency.clone(),
                token_issuer: s.token_issuer.clone(),
            };
            InvestmentResult {
                accepted: true,
                reason,
                token_amount: amount,
                updated_state: Some(updated),
                send_to_treasury: s.current_raised + amount == s.max_value,
            }
        },
        _ => InvestmentResult {
            accepted: false,
            reason,
            token_amount: 0,
            updated_state: None,
            send_to_treasury: false,
        },
    }
}

/// Closes the campaign at time `now`, if it can be closed yet.
///
/// Before and at the deadline nothing happens and the result says so. After
/// it, a raise that has reached the cap goes to the treasury whole, and any
/// other raise is paid back, entry by entry, in the order of `investments`.
/// `None` stands for a state that could not be read: nothing happens.
pub fn finalize_campaign(state: Option<&CampaignState>, now: u64) -> (result: FinalizeResult)
    ensures
        result@ == finalize_outcome(snapshot(state), now as nat),
        state matches Some(s) ==> {
            &&& now <= s.deadline_unix ==> {
                &&& !result.success
                &&& !result.objective_reached
                &&& result.refunds@.len() == 0
                &&& result.treasury_amount == 0
            }
            &&& now > s.deadline_unix && s.current_raised >= s.max_value ==> {
                &&& result.success
                &&& result.objective_reached
                &&& result.refunds@.len() == 0
                &&& result.treasury_amount == s.current_raised
            }
            &&& now > s.deadline_unix && s.current_raised < s.max_value ==> {
                &&& result.success
                &&& !result.objective_reached
                &&& holdings_of(result.refunds@) == s@.investments
                &&& result.treasury_amount == 0
            }
        },
        state is None ==> {
            &&& !result.success
            &&& !result.objective_reached
            &&& result.refunds@.len() == 0
            &&& result.treasury_amount == 0
        },
{
    match state {
        Some(s) if now > s.deadline_unix => {
            if s.current_raised >= s.max_value {
                let result = FinalizeResult {
                    success: true,
                    objective_reached: true,
                    refunds: Vec::new(),
                    treasury_amount: s.current_raised,
                };
                assert(result@.refunds =~= Seq::empty());
                result
            } else {
                FinalizeResult {
                    success: true,
                    objective_reached: false,
                    refunds: copy_entries(&s.investments),
                    treasury_amount: 0,
                }
            }
        },
        _ => {
            let result = FinalizeResult {
                success: false,
                objective_reached: false,
                refunds: Vec::new(),
                treasury_amount: 0,
            };
            assert(result@.refunds =~= Seq::empty());
            result
        },
    }
}

/// One call of `process_investment`, as far as it bears on the state.
pub struct Attempt {
    pub sender: Seq<char>,
    pub amount: nat,
    pub now: nat,
}

/// The state that the owner holds after one attempt: the updated state if
/// the investment was accepted, the old one if not.
pub open spec fn after_attempt(state: CampaignView, attempt: Attempt) -> CampaignView {
    let outcome = investment_outcome(Some(state), attempt.sender, attempt.amount, attempt.now);
    match outcome.updated_state {
        Some(updated) => updated,
        None => state,
    }
}

/// The state after a series of attempts, first to last.
pub open spec fn after_attempts(state: CampaignView, attempts: Seq<Attempt>) -> CampaignView
    decreases attempts.len(),
{
    if attempts.len() == 0 {
        state
    } else {
        after_attempt(after_attempts(state, attempts.drop_last()), attempts.last())
    }
}

/// A series of investment attempts keeps a state that adds up adding up:
/// the entries sum to what was raised, which stays within the cap. The cap,
/// the deadline and the descriptive fields never change.
pub proof fn law_attempts_keep_the_balance(start: CampaignView, attempts: Seq<Attempt>)
    requires
        start.balanced(),
    ensures
        after_attempts(start, attempts).balanced(),
        after_attempts(start, attempts) == (CampaignView {
            current_raised: after_attempts(start, attempts).current_raised,
            investments: after_attempts(start, attempts).investments,
            ..start
        }),
    decreases attempts.len(),
{
    if attempts.len() > 0 {
        law_attempts_keep_the_balance(start, attempts.drop_last());
        let before = after_attempts(start, attempts.drop_last());
        let attempt = attempts.last();
        lemma_credited(before.investments, attempt.sender, attempt.amount);
    }
}

/// Every state that can be reached adds up: a new campaign does, and so
/// does whatever any series of investment attempts makes of it.
pub proof fn law_reachable_states_are_balanced(
    campaign_id: Seq<char>,
    max_value: nat,
    deadline_unix: nat,
    treasury_address: Seq<char>,
    investment_currency: Seq<char>,
    investment_issuer: Seq<char>,
    token_currency: Seq<char>,
    token_issuer: Seq<char>,
    attempts: Seq<Attempt>,
)
    ensures
        after_attempts(
            created(
                campaign_id,
                max_value,
                deadline_unix,
                treasury_address,
                investment_currency,
                investment_issuer,
                token_currency,
                token_issuer,
            ),
            attempts,
        ).balanced(),
{
    law_attempts_keep_the_balance(
        created(
            campaign_id,
            max_value,
            deadline_unix,
            treasury_address,
            investment_currency,
            investment_issuer,
            token_currency,
            token_issuer,
        ),
        attempts,
    );
}

/// An attempt that is refused leaves the state exactly as it was, and an
/// investment is refused whenever the deadline has passed or the amount
/// would take the raise over the cap.
pub proof fn law_refusal_changes_nothing(state: CampaignView, attempt: Attempt)
    requires
        attempt.now > state.deadline_unix || state.current_raised + attempt.amount
            > state.max_value || !state.balanced(),
    ensures
        !verdict_of(Some(state), attempt.amount, attempt.now).accepts(),
        after_attempt(state, attempt) == state,
{
}

/// Investing never takes anything away: after any series of attempts every
/// address holds at least what it held before, and what was raised has not
/// gone down.
pub proof fn law_investments_only_grow(start: CampaignView, attempts: Seq<Attempt>, who: Seq<char>)
    requires
        start.balanced(),
    ensures
        amount_of(after_attempts(start, attempts).investments, who) >= amount_of(
            start.investments,
            who,
        ),
        holds(start.investments, who) ==> holds(after_attempts(start, attempts).investments, who),
        after_attempts(start, attempts).current_raised >= start.current_raised,
    decreases attempts.len(),
{
    if attempts.len() > 0 {
        law_investments_only_grow(start, attempts.drop_last(), who);
        let before = after_attempts(start, attempts.drop_last());
        let attempt = attempts.last();
        lemma_credited(before.investments, attempt.sender, attempt.amount);
    }
}

/// Closing a campaign loses nothing: once the deadline has passed, what goes
/// to the treasury and what is paid back together are exactly what was
/// raised, and only one of the two is paid.
pub proof fn law_finalize_accounts_for_all_funds(state: CampaignView, now: nat)
    requires
        state.balanced(),
        now > state.deadline_unix,
    ensures
        finalize_outcome(Some(state), now).success,
        finalize_outcome(Some(state), now).treasury_amount + total(
            finalize_outcome(Some(state), now).refunds,
        ) == state.current_raised,
        finalize_outcome(Some(state), now).treasury_amount == 0 || total(
            finalize_outcome(Some(state), now).refunds,
        ) == 0,
        distinct(finalize_outcome(Some(state), now).refunds),
{
}

} // verus!
