//! Decision engines for capped, deadline-bound escrow.
//!
//! Two engines live here. The [`campaign`] engine judges investments into a
//! raise with a cap and a deadline, and closes the raise into a treasury
//! payout or refunds. The [`pooled`] engine gathers contributions up to a
//! fixed cap and settles when the cap is met exactly. Neither moves money:
//! each hands its owner a decision to carry out.

pub mod campaign;
pub mod decimal;
pub mod holdings;
pub mod pooled;

pub use campaign::{
    assess_investment, create_campaign_state, finalize_campaign, process_investment,
    CampaignState, FinalizeResult, InvestmentResult, Verdict,
};
pub use pooled::{Leg, PaymentError, Phase, PooledEscrow, Step};
