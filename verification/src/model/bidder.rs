use vstd::prelude::*;

verus! {

/// The personality type behind a rival paddle.
#[derive(Clone, Copy, Debug, PartialEq, Eq, Structural)]
pub enum BidderType {
    FirstHomeBuyer,
    Investor,
    Renovator,
    Developer,
    EgoBidder,
    BargainHunter,
}

impl BidderType {
    /// Display name of the bidder type.
    pub fn label(self) -> (text: &'static str)
        ensures
            text@ == match self {
                BidderType::FirstHomeBuyer => "First Home Buyer"@,
                BidderType::Investor => "Investor"@,
                BidderType::Renovator => "Renovator"@,
                BidderType::Developer => "Developer"@,
                BidderType::EgoBidder => "Ego Bidder"@,
                BidderType::BargainHunter => "Bargain Hunter"@,
            },
    {
        match self {
            BidderType::FirstHomeBuyer => "First Home Buyer",
            BidderType::Investor => "Investor",
            BidderType::Renovator => "Renovator",
            BidderType::Developer => "Developer",
            BidderType::EgoBidder => "Ego Bidder",
            BidderType::BargainHunter => "Bargain Hunter",
        }
    }
}

/// What a rival is visibly doing at the table.
#[derive(Clone, Copy, Debug, PartialEq, Eq, Structural)]
pub enum BidderMood {
    Watching,
    Interested,
    Hesitating,
    Stretching,
    Out,
}

impl BidderMood {
    /// Lower-case display word of the mood.
    pub fn label(self) -> (text: &'static str)
        ensures
            text@ == match self {
                BidderMood::Watching => "watching"@,
                BidderMood::Interested => "interested"@,
                BidderMood::Hesitating => "hesitating"@,
                BidderMood::Stretching => "stretching"@,
                BidderMood::Out => "out"@,
            },
    {
        match self {
            BidderMood::Watching => "watching",
            BidderMood::Interested => "interested",
            BidderMood::Hesitating => "hesitating",
            BidderMood::Stretching => "stretching",
            BidderMood::Out => "out",
        }
    }
}

/// An authored rival personality; the ratios are in thousandths.
#[derive(Clone, Debug)]
pub struct BidderProfileData {
    pub name: String,
    pub bidder_type: BidderType,
    pub aggression: u32,
    pub patience: u32,
    pub budget_bias: i32,
}

/// A rival in a live room. Money is in whole dollars, timers in milliseconds,
/// and the behavioural ratios (aggression, patience, pressure tolerance,
/// overbid tendency) in thousandths.
#[derive(Clone, Debug)]
pub struct Bidder {
    pub name: String,
    pub bidder_type: BidderType,
    pub max_price: i64,
    pub aggression: u32,
    pub patience: u32,
    pub pressure_tolerance: u32,
    pub overbid_tendency: u32,
    pub reaction_timer_ms: i64,
    pub preparing_bid: bool,
    pub bid_flash_ms: i64,
    pub bid_count: u8,
    pub heat: i32,
    pub mood: BidderMood,
    pub tell: String,
    pub preference: String,
    pub weakness: String,
    pub danger: String,
    pub rhythm: String,
    pub active: bool,
    pub has_logged_exit: bool,
    pub stretch_bid_used: bool,
}

/// What the player's notebook remembers about a recurring rival.
#[derive(Clone, Debug)]
pub struct RivalRecord {
    pub name: String,
    pub bidder_type: BidderType,
    pub auctions_met: u32,
    pub auctions_won: u32,
    pub highest_room_price: i64,
    pub stretches_seen: u32,
}

} // verus!
