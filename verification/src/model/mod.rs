pub mod auction;
pub mod bidder;
pub mod player;
pub mod property;

pub use auction::{Auction, AuctionStatus, AuctionTemperature, BidLog, BidderActor};
pub use bidder::{Bidder, BidderMood, BidderProfileData, BidderType, RivalRecord};
pub use player::{CareerRecord, OwnedProperty, Player};
pub use property::{
    ActiveRenovation, CampaignStatus, CompletedUpgrade, Condition, DealArchetype,
    MaintenanceIssue, Property, ResearchLevel, WalkawayStyle,
};
