use vstd::prelude::*;

verus! {

/// The physical state a listing is sold in.
#[derive(Clone, Copy, Debug, PartialEq, Eq, Structural)]
pub enum Condition {
    Premium,
    Solid,
    Tired,
    Rough,
}

/// The kind of deal a listing represents, and the trap it sets.
#[derive(Clone, Copy, Debug, PartialEq, Eq, Structural)]
pub enum DealArchetype {
    RentalHold,
    QuietBargain,
    RiskyFixer,
    PrettyTrap,
    LandValuePlay,
    RenovatorBait,
    HotSuburbFomo,
    AuctionTrap,
}

/// How much due diligence the player bought before the auction, from the
/// cheapest public read to the full pre-auction report.
#[derive(Clone, Copy, Debug, PartialEq, Eq, Structural)]
pub enum ResearchLevel {
    StreetScan,
    AgentPack,
    BuildingInspection,
    FullDiligence,
}

/// Position of a research level in the order in which they are bought.
pub open spec fn level_rank(level: ResearchLevel) -> nat {
    match level {
        ResearchLevel::StreetScan => 0,
        ResearchLevel::AgentPack => 1,
        ResearchLevel::BuildingInspection => 2,
        ResearchLevel::FullDiligence => 3,
    }
}

impl ResearchLevel {
    /// Position of this level in the order in which they are bought; a deeper
    /// level has a larger rank.
    pub fn rank(self) -> (r: u8)
        ensures
            r == level_rank(self),
    {
        match self {
            ResearchLevel::StreetScan => 0,
            ResearchLevel::AgentPack => 1,
            ResearchLevel::BuildingInspection => 2,
            ResearchLevel::FullDiligence => 3,
        }
    }
}

/// How far below the researched value the player sets their walk-away.
#[derive(Clone, Copy, Debug, PartialEq, Eq, Structural)]
pub enum WalkawayStyle {
    Conservative,
    Balanced,
    Aggressive,
}

/// Where the season stands against its three goals.
#[derive(Clone, Copy, Debug, PartialEq, Eq, Structural)]
pub enum CampaignStatus {
    Active,
    Won,
    Failed,
}

/// A listed home. Money is in whole dollars; `hidden_defect_risk` is the
/// probability of a hidden defect in hundredths (a risk of 0.18 is 18).
#[derive(Clone, Debug)]
pub struct Property {
    pub id: usize,
    pub address: String,
    pub suburb: String,
    pub bedrooms: u8,
    pub bathrooms: u8,
    pub condition: Condition,
    pub land_size: u32,
    pub market_value: i64,
    pub guide_price: i64,
    pub reserve_price: i64,
    pub appeal: i32,
    pub renovation_potential: i32,
    pub hidden_defect_risk: u32,
    pub holding_cost_per_week: i64,
    pub buyer_demand: i32,
    pub deal_archetype: DealArchetype,
    pub thesis: String,
    pub main_risk: String,
    pub best_strategy: String,
    pub bad_strategy: String,
    pub notes: String,
}

/// Whether a property's defect evidence is strong enough that an inspection
/// would flag a material repair: a risk of at least 0.28, or at least 0.18 on
/// an odd-numbered listing.
pub open spec fn defect_likely(property: Property) -> bool {
    property.hidden_defect_risk >= 28 || (property.hidden_defect_risk >= 18 && property.id % 2
        == 1)
}

/// A renovation in progress on an owned home.
#[derive(Clone, Debug)]
pub struct ActiveRenovation {
    pub upgrade_id: String,
}

/// A finished upgrade and what it actually cost.
#[derive(Clone, Debug)]
pub struct CompletedUpgrade {
    pub upgrade_id: String,
    pub removes_defect: bool,
    pub actual_cost: i64,
}

/// A scheduled maintenance item awaiting repair on an owned home: the label
/// of its kind and what the repair costs.
#[derive(Clone, Debug)]
pub struct MaintenanceIssue {
    pub kind: String,
    pub repair_cost: i64,
}

} // verus!
