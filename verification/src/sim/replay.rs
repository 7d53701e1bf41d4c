use vstd::prelude::*;
use crate::model::auction::AuctionStatus;
use crate::model::property::CampaignStatus;

verus! {

/// What the authored campaign replay reached: the season's status and week,
/// the homes owned, the weekly rent, the net worth, and how a saved and
/// resumed live auction ended.
#[derive(Clone, Debug, PartialEq, Eq)]
pub struct CampaignReplayReport {
    pub status: CampaignStatus,
    pub week: u32,
    pub homes: usize,
    pub weekly_rent: i64,
    pub net_worth: i64,
    pub resumed_auction_status: AuctionStatus,
}

} // verus!
