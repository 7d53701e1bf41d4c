use vstd::prelude::*;
use crate::model::bidder::Bidder;
use crate::model::property::{Property, ResearchLevel, WalkawayStyle};

verus! {

/// The most recent entries that a room's log keeps.
pub const MAX_LOG_ENTRIES: usize = 12;

/// Who holds the current bid.
#[derive(Clone, Copy, Debug, PartialEq, Eq, Structural)]
pub enum BidderActor {
    Player,
    Npc(usize),
    Vendor,
}

/// How a finished auction ended.
#[derive(Clone, Debug, PartialEq, Eq)]
pub enum AuctionStatus {
    SoldToPlayer,
    SoldToNpc(String),
    PassedIn,
}

/// One line of the room's running commentary, stamped with the time that was
/// left on the clock (in milliseconds) when it was said.
#[derive(Clone, Debug)]
pub struct BidLog {
    pub text: String,
    pub remaining_ms: i64,
}

/// How heated the room feels.
#[derive(Clone, Copy, Debug, PartialEq, Eq, Structural)]
pub enum AuctionTemperature {
    QuietRoom,
    SteadyInterest,
    HeatingUp,
    FomoSpiral,
    FinalCall,
}

impl AuctionTemperature {
    /// Short display name of the temperature.
    pub fn label(self) -> (text: &'static str)
        ensures
            text@ == match self {
                AuctionTemperature::QuietRoom => "Quiet Room"@,
                AuctionTemperature::SteadyInterest => "Steady Interest"@,
                AuctionTemperature::HeatingUp => "Heating Up"@,
                AuctionTemperature::FomoSpiral => "FOMO Spiral"@,
                AuctionTemperature::FinalCall => "Final Call"@,
            },
    {
        match self {
            AuctionTemperature::QuietRoom => "Quiet Room",
            AuctionTemperature::SteadyInterest => "Steady Interest",
            AuctionTemperature::HeatingUp => "Heating Up",
            AuctionTemperature::FomoSpiral => "FOMO Spiral",
            AuctionTemperature::FinalCall => "Final Call",
        }
    }

    /// One sentence on what the temperature means for the player.
    pub fn description(self) -> (text: &'static str)
        ensures
            text@ == match self {
                AuctionTemperature::QuietRoom =>
                    "The room is cautious. Price discovery is still rational."@,
                AuctionTemperature::SteadyInterest =>
                    "Bidders are engaged, but not yet panicked."@,
                AuctionTemperature::HeatingUp =>
                    "Competition is pulling attention away from the numbers."@,
                AuctionTemperature::FomoSpiral =>
                    "Bidders are reacting emotionally. Good deals vanish quickly here."@,
                AuctionTemperature::FinalCall => "Silence now decides the sale."@,
            },
    {
        match self {
            AuctionTemperature::QuietRoom => {
                "The room is cautious. Price discovery is still rational."
            },
            AuctionTemperature::SteadyInterest => "Bidders are engaged, but not yet panicked.",
            AuctionTemperature::HeatingUp => {
                "Competition is pulling attention away from the numbers."
            },
            AuctionTemperature::FomoSpiral => {
                "Bidders are reacting emotionally. Good deals vanish quickly here."
            },
            AuctionTemperature::FinalCall => "Silence now decides the sale.",
        }
    }
}

/// A live (or finished) auction room. Money is in whole dollars and every
/// clock in milliseconds.
#[derive(Clone, Debug)]
pub struct Auction {
    pub property: Property,
    pub current_bid: i64,
    pub reserve_price: i64,
    pub bid_increment: i64,
    pub remaining_ms: i64,
    pub call_timer_ms: i64,
    pub since_bid_ms: i64,
    pub bidders: Vec<Bidder>,
    pub last_bidder: Option<BidderActor>,
    pub is_player_active: bool,
    pub player_exit_bid: Option<i64>,
    pub overtime_count: u8,
    pub status: Option<AuctionStatus>,
    pub log: Vec<BidLog>,
    pub player_walkaway_price: i64,
    pub player_research_level: ResearchLevel,
    pub walkaway_style: WalkawayStyle,
    pub temperature: AuctionTemperature,
    pub market_heat: i32,
    pub jump_bid_available: bool,
    pub player_bid_count: u8,
    pub on_market_announced: bool,
    pub vendor_bid_used: bool,
    pub last_room_read: Option<String>,
    pub sold_post_auction: bool,
    pub post_auction_tested: bool,
    pub has_started: bool,
    pub rng_state: u64,
}

impl Auction {
    /// The room's structural invariant: a positive bid step, a bounded log,
    /// and a leading rival that is one of the room's bidders.
    pub open spec fn wf(&self) -> bool {
        &&& self.bid_increment > 0
        &&& self.log.len() <= MAX_LOG_ENTRIES
        &&& match self.last_bidder {
            Some(BidderActor::Npc(i)) => i < self.bidders.len(),
            _ => true,
        }
    }

    /// Whether the hammer has not yet fallen.
    pub fn is_running(&self) -> (running: bool)
        ensures
            running == self.status.is_none(),
    {
        self.status.is_none()
    }

    /// The price the auctioneer asks for next: one step above the current bid.
    pub fn next_bid(&self) -> (bid: i64)
        requires
            self.current_bid + self.bid_increment <= i64::MAX,
            self.current_bid + self.bid_increment >= i64::MIN,
        ensures
            bid == self.current_bid + self.bid_increment,
    {
        self.current_bid + self.bid_increment
    }

    /// The price of the player's assertive jump: two steps above the current bid.
    pub fn jump_bid(&self) -> (bid: i64)
        requires
            i64::MIN <= 2 * self.bid_increment <= i64::MAX,
            self.current_bid + 2 * self.bid_increment <= i64::MAX,
            self.current_bid + 2 * self.bid_increment >= i64::MIN,
        ensures
            bid == self.current_bid + 2 * self.bid_increment,
    {
        self.current_bid + self.bid_increment * 2
    }

    /// The player's registered paddle for this lot, between 100 and 899.
    pub fn player_paddle_number(&self) -> (paddle: u16)
        requires
            self.property.id * 37 <= usize::MAX,
        ensures
            paddle == 100 + (self.property.id * 37) % 800,
            100 <= paddle < 900,
    {
        let seat: usize = (self.property.id * 37) % 800;
        100 + seat as u16
    }
}

/// The jump is available in a room saved before the jump existed.
pub fn jump_available_default() -> (available: bool)
    ensures
        available,
{
    true
}

/// A room saved before the lobby existed had already started its calls.
pub fn auction_started_default() -> (started: bool)
    ensures
        started,
{
    true
}

/// The random stream a room saved before streams existed resumes from.
pub fn auction_rng_default() -> (state: u64)
    ensures
        state == 0xA117_C710_5EED_2026u64,
{
    0xA117_C710_5EED_2026
}

} // verus!
