use vstd::prelude::*;
use crate::model::property::{defect_likely, level_rank, DealArchetype, Property, ResearchLevel};
use crate::sim::valuation::{
    floor_to, nearest_thousand, round_down_to_increment, round_half_away, round_to_1000,
};
use crate::ui::money::money_text;
use crate::ui::format_money;

verus! {

/// What the research desk reads from the week's market for one listing: the
/// market-adjusted value of the home and the demand modifier of its suburb,
/// in thousandths (a modifier of 0.05 is 50). The market model that computes
/// them is supplied by the caller.
#[derive(Clone, Copy, Debug)]
pub struct MarketRead {
    pub adjusted_value: i64,
    pub suburb_modifier: i32,
}

/// How much the player's research lets them say about hidden defects.
#[derive(Clone, Copy, Debug, PartialEq, Eq, Structural)]
pub enum KnownRisk {
    Unverified,
    Low,
    Moderate,
    Elevated,
}

impl KnownRisk {
    /// Display label of the researched risk.
    pub fn label(self) -> (text: &'static str)
        ensures
            text@ == match self {
                KnownRisk::Unverified => "Risk unverified"@,
                KnownRisk::Low => "Low researched risk"@,
                KnownRisk::Moderate => "Moderate researched risk"@,
                KnownRisk::Elevated => "Elevated researched risk"@,
            },
    {
        match self {
            KnownRisk::Unverified => "Risk unverified",
            KnownRisk::Low => "Low researched risk",
            KnownRisk::Moderate => "Moderate researched risk",
            KnownRisk::Elevated => "Elevated researched risk",
        }
    }
}

/// The risk band an agent pack reports for a raw defect risk (in hundredths).
pub open spec fn agent_pack_band(risk: u32) -> KnownRisk {
    if risk >= 25 {
        KnownRisk::Elevated
    } else if risk >= 15 {
        KnownRisk::Moderate
    } else {
        KnownRisk::Low
    }
}

/// What each research level can claim to know about hidden defects: nothing
/// from a street scan, the raw risk band from an agent pack, and the material
/// defect evidence from an inspection or full diligence.
pub open spec fn known_risk(property: Property, level: ResearchLevel) -> KnownRisk {
    match level {
        ResearchLevel::StreetScan => KnownRisk::Unverified,
        ResearchLevel::AgentPack => agent_pack_band(property.hidden_defect_risk),
        _ => if defect_likely(property) {
            KnownRisk::Elevated
        } else {
            KnownRisk::Low
        },
    }
}

/// The researched defect risk of a listing at a given research level.
pub fn known_risk_level(property: &Property, level: ResearchLevel) -> (risk: KnownRisk)
    ensures
        risk == known_risk(*property, level),
        level == ResearchLevel::StreetScan ==> risk == KnownRisk::Unverified,
{
    match level {
        ResearchLevel::StreetScan => KnownRisk::Unverified,
        ResearchLevel::AgentPack => {
            if property.hidden_defect_risk >= 25 {
                KnownRisk::Elevated
            } else if property.hidden_defect_risk >= 15 {
                KnownRisk::Moderate
            } else {
                KnownRisk::Low
            }
        },
        _ => {
            if material_defect_likely(property) {
                KnownRisk::Elevated
            } else {
                KnownRisk::Low
            }
        },
    }
}

/// A street scan never claims to know the hidden risk, however high it is.
pub proof fn lemma_street_scan_never_claims_hidden_risk(property: Property)
    ensures
        known_risk(property, ResearchLevel::StreetScan) == KnownRisk::Unverified,
{
}

/// From an inspection on, the researched risk is elevated exactly when the
/// defect evidence is material, which is also exactly when a settled home
/// discovers its hidden defect.
pub proof fn lemma_inspection_reports_the_material_defect(property: Property, level: ResearchLevel)
    requires
        level_rank(level) >= 2,
    ensures
        (known_risk(property, level) == KnownRisk::Elevated) == defect_likely(property),
        known_risk(property, level) == KnownRisk::Elevated || known_risk(property, level)
            == KnownRisk::Low,
{
}

/// Order of the agent-pack bands, from low to elevated.
pub open spec fn band_rank(risk: KnownRisk) -> int {
    match risk {
        KnownRisk::Unverified => 0,
        KnownRisk::Low => 1,
        KnownRisk::Moderate => 2,
        KnownRisk::Elevated => 3,
    }
}

/// An agent pack never reports a riskier listing in a lower band.
pub proof fn lemma_agent_pack_band_follows_risk(lower: u32, higher: u32)
    requires
        lower <= higher,
    ensures
        band_rank(agent_pack_band(lower)) <= band_rank(agent_pack_band(higher)),
        agent_pack_band(lower) != KnownRisk::Unverified,
{
}

/// Whether an inspection would flag a material repair on this listing.
pub fn material_defect_likely(property: &Property) -> (likely: bool)
    ensures
        likely == defect_likely(*property),
{
    property.hidden_defect_risk >= 28 || (property.hidden_defect_risk >= 18 && property.id % 2
        == 1)
}

/// The question each research level is bought to answer.
pub fn research_question(level: ResearchLevel) -> (text: &'static str)
    ensures
        text@ == match level {
            ResearchLevel::StreetScan => "What is the rough value and demand?"@,
            ResearchLevel::AgentPack => "What reserve and buyer interest should you expect?"@,
            ResearchLevel::BuildingInspection =>
                "What defect or repair bill could kill the margin?"@,
            ResearchLevel::FullDiligence => "How wrong could your walk-away number still be?"@,
        },
{
    match level {
        ResearchLevel::StreetScan => "What is the rough value and demand?",
        ResearchLevel::AgentPack => "What reserve and buyer interest should you expect?",
        ResearchLevel::BuildingInspection => "What defect or repair bill could kill the margin?",
        ResearchLevel::FullDiligence => "How wrong could your walk-away number still be?",
    }
}

/// What the player is bidding from at a research level.
pub fn due_diligence_note(property: &Property, level: ResearchLevel) -> (text: &'static str)
    ensures
        text@ == match level {
            ResearchLevel::StreetScan => "You are bidding from public data and curb appeal."@,
            ResearchLevel::AgentPack =>
                "Reserve and comparable sales are cleaner, but building risk is still fuzzy."@,
            ResearchLevel::BuildingInspection => if defect_likely(*property) {
                "The repair risk should lower your walk-away price."@
            } else {
                "The main defect risk is now priced with more confidence."@
            },
            ResearchLevel::FullDiligence =>
                "This is the cleanest pre-auction read available for now."@,
        },
{
    match level {
        ResearchLevel::StreetScan => "You are bidding from public data and curb appeal.",
        ResearchLevel::AgentPack => {
            "Reserve and comparable sales are cleaner, but building risk is still fuzzy."
        },
        ResearchLevel::BuildingInspection => {
            if material_defect_likely(property) {
                "The repair risk should lower your walk-away price."
            } else {
                "The main defect risk is now priced with more confidence."
            }
        },
        ResearchLevel::FullDiligence => "This is the cleanest pre-auction read available for now.",
    }
}

/// The research depth at which a deal archetype's main blind spot is covered.
pub open spec fn fitting_rank(archetype: DealArchetype) -> nat {
    match archetype {
        DealArchetype::RiskyFixer | DealArchetype::RenovatorBait => 2,
        DealArchetype::AuctionTrap | DealArchetype::HotSuburbFomo => 1,
        DealArchetype::LandValuePlay | DealArchetype::PrettyTrap => 3,
        DealArchetype::QuietBargain | DealArchetype::RentalHold => 1,
    }
}

/// Whether the research bought is the right tool for the listing's archetype,
/// and if not, what is still unknown.
pub fn research_fit_summary(property: &Property, level: ResearchLevel) -> (text: &'static str)
    ensures
        text@ == {
            let fits = level_rank(level) >= fitting_rank(property.deal_archetype);
            match property.deal_archetype {
                DealArchetype::RiskyFixer | DealArchetype::RenovatorBait => if fits {
                    "Research fit: correct tool for repair risk."@
                } else {
                    "Research gap: building risk is still the main blind spot."@
                },
                DealArchetype::AuctionTrap | DealArchetype::HotSuburbFomo => if fits {
                    "Research fit: reserve and bidder pressure are clearer."@
                } else {
                    "Research gap: guide price may be bait."@
                },
                DealArchetype::LandValuePlay => if fits {
                    "Research fit: land thesis has been stress-tested."@
                } else {
                    "Research gap: land value needs deeper confirmation."@
                },
                DealArchetype::PrettyTrap => if fits {
                    "Research fit: safety premium is priced."@
                } else {
                    "Research gap: safe-looking can still mean overpriced."@
                },
                DealArchetype::QuietBargain | DealArchetype::RentalHold => if fits {
                    "Research fit: quiet numbers have enough confirmation."@
                } else {
                    "Research gap: cheap-looking may just be unloved."@
                },
            }
        },
{
    let rank = level.rank();
    match property.deal_archetype {
        DealArchetype::RiskyFixer | DealArchetype::RenovatorBait => {
            if rank >= 2 {
                "Research fit: correct tool for repair risk."
            } else {
                "Research gap: building risk is still the main blind spot."
            }
        },
        DealArchetype::AuctionTrap | DealArchetype::HotSuburbFomo => {
            if rank >= 1 {
                "Research fit: reserve and bidder pressure are clearer."
            } else {
                "Research gap: guide price may be bait."
            }
        },
        DealArchetype::LandValuePlay => {
            if rank >= 3 {
                "Research fit: land thesis has been stress-tested."
            } else {
                "Research gap: land value needs deeper confirmation."
            }
        },
        DealArchetype::PrettyTrap => {
            if rank >= 3 {
                "Research fit: safety premium is priced."
            } else {
                "Research gap: safe-looking can still mean overpriced."
            }
        },
        DealArchetype::QuietBargain | DealArchetype::RentalHold => {
            if rank >= 1 {
                "Research fit: quiet numbers have enough confirmation."
            } else {
                "Research gap: cheap-looking may just be unloved."
            }
        },
    }
}

/// The word for a buyer-demand score.
pub open spec fn demand_text(score: int) -> Seq<char> {
    if score >= 72 {
        "hot"@
    } else if score >= 55 {
        "steady"@
    } else {
        "soft"@
    }
}

/// Describes a buyer-demand score as hot (72 and up), steady (55 and up) or soft.
pub fn demand_word(score: i32) -> (text: &'static str)
    ensures
        text@ == demand_text(score as int),
{
    if score >= 72 {
        "hot"
    } else if score >= 55 {
        "steady"
    } else {
        "soft"
    }
}

/// The share of a researched risk summary that describes the agent pack band.
pub open spec fn agent_pack_summary(risk: u32) -> Seq<char> {
    if risk >= 25 {
        "Agent pack flags elevated defect risk."@
    } else if risk >= 15 {
        "Agent pack shows moderate defect risk."@
    } else {
        "Agent pack shows low defect risk."@
    }
}

/// The defect-risk sentence shown for a listing at a research level.
/// `temptation` is the listing archetype's authored temptation line.
pub open spec fn risk_summary_text(property: Property, level: ResearchLevel, temptation: Seq<
    char,
>) -> Seq<char> {
    match level {
        ResearchLevel::StreetScan => "Risk unverified. The listing wants you to "@ + temptation
            + "."@,
        ResearchLevel::AgentPack => agent_pack_summary(property.hidden_defect_risk),
        ResearchLevel::BuildingInspection => if defect_likely(property) {
            "Inspector suspects a material repair item."@
        } else {
            "Inspector found no major structural warning."@
        },
        ResearchLevel::FullDiligence => if defect_likely(property) {
            "Full diligence confirms a material defect allowance is needed."@
        } else {
            "Full diligence confirms no major hidden defect."@
        },
    }
}

/// Summarises what the research level says about defect risk; a street scan
/// names the temptation (the archetype's authored line) instead of a risk.
pub fn risk_summary(property: &Property, level: ResearchLevel, temptation: &str) -> (text: String)
    ensures
        text@ == risk_summary_text(*property, level, temptation@),
{
    let likely_defect = material_defect_likely(property);
    match level {
        ResearchLevel::StreetScan => {
            let mut text = String::from_str("Risk unverified. The listing wants you to ");
            text.append(temptation);
            text.append(".");
            text
        },
        ResearchLevel::AgentPack => {
            if property.hidden_defect_risk >= 25 {
                String::from_str("Agent pack flags elevated defect risk.")
            } else if property.hidden_defect_risk >= 15 {
                String::from_str("Agent pack shows moderate defect risk.")
            } else {
                String::from_str("Agent pack shows low defect risk.")
            }
        },
        ResearchLevel::BuildingInspection => {
            if likely_defect {
                String::from_str("Inspector suspects a material repair item.")
            } else {
                String::from_str("Inspector found no major structural warning.")
            }
        },
        ResearchLevel::FullDiligence => {
            if likely_defect {
                String::from_str("Full diligence confirms a material defect allowance is needed.")
            } else {
                String::from_str("Full diligence confirms no major hidden defect.")
            }
        },
    }
}

/// How many reputation points count toward research corrections: the
/// reputation, floored at zero and capped at six.
pub open spec fn reputation_steps(reputation: int) -> int {
    if reputation < 0 {
        0
    } else if reputation > 6 {
        6
    } else {
        reputation
    }
}

fn reputation_steps_of(reputation: i32) -> (steps: i64)
    ensures
        steps == reputation_steps(reputation as int),
{
    if reputation < 0 {
        0
    } else if reputation > 6 {
        6
    } else {
        reputation as i64
    }
}

/// The safety margin each research level keeps below the researched value.
pub open spec fn research_buffer(level: ResearchLevel) -> int {
    match level {
        ResearchLevel::StreetScan => 42_000,
        ResearchLevel::AgentPack => 36_000,
        ResearchLevel::BuildingInspection => 30_000,
        ResearchLevel::FullDiligence => 26_000,
    }
}

/// The extra walk-away margin (or relief, when negative) a deal archetype
/// calls for at a research level.
pub open spec fn archetype_buffer(archetype: DealArchetype, level: ResearchLevel) -> int {
    match archetype {
        DealArchetype::PrettyTrap => 18_000,
        DealArchetype::HotSuburbFomo => 14_000,
        DealArchetype::AuctionTrap => if level_rank(level) < 1 {
            24_000
        } else {
            10_000
        },
        DealArchetype::RenovatorBait => 12_000,
        DealArchetype::RiskyFixer => if level_rank(level) < 2 {
            16_000
        } else {
            0
        },
        DealArchetype::LandValuePlay => if level_rank(level) >= 3 {
            -8_000
        } else {
            0
        },
        DealArchetype::QuietBargain => if level_rank(level) >= 1 {
            -10_000
        } else {
            0
        },
        DealArchetype::RentalHold => -6_000,
    }
}

/// The repair margin kept for a likely material defect, by research level.
pub open spec fn defect_buffer(property: Property, level: ResearchLevel) -> int {
    if !defect_likely(property) {
        0
    } else {
        let fixer = property.deal_archetype == DealArchetype::RiskyFixer;
        match level {
            ResearchLevel::StreetScan | ResearchLevel::AgentPack => if fixer {
                18_000
            } else {
                0
            },
            ResearchLevel::BuildingInspection => if fixer {
                30_000
            } else {
                18_000
            },
            ResearchLevel::FullDiligence => if fixer {
                36_000
            } else {
                28_000
            },
        }
    }
}

/// The walk-away before rounding: the market-adjusted value less every
/// buffer, plus $2,000 of relief per reputation step, never below the guide.
pub open spec fn walkaway_target(
    property: Property,
    market: MarketRead,
    level: ResearchLevel,
    style_buffer: int,
    reputation: int,
) -> int {
    let raw = market.adjusted_value - research_buffer(level) - archetype_buffer(
        property.deal_archetype,
        level,
    ) - defect_buffer(property, level) - style_buffer + 2_000 * reputation_steps(reputation);
    if raw >= property.guide_price {
        raw
    } else {
        property.guide_price as int
    }
}

/// The recommended walk-away: the target rounded down to $10,000.
pub open spec fn walkaway_price(
    property: Property,
    market: MarketRead,
    level: ResearchLevel,
    style_buffer: int,
    reputation: int,
) -> int {
    floor_to(walkaway_target(property, market, level, style_buffer, reputation), 10_000)
}

/// The archetype's walk-away buffer at a research level.
fn archetype_walkaway_buffer(property: &Property, level: ResearchLevel) -> (buffer: i64)
    ensures
        buffer == archetype_buffer(property.deal_archetype, level),
{
    let rank = level.rank();
    match property.deal_archetype {
        DealArchetype::PrettyTrap => 18_000,
        DealArchetype::HotSuburbFomo => 14_000,
        DealArchetype::AuctionTrap => if rank < 1 {
            24_000
        } else {
            10_000
        },
        DealArchetype::RenovatorBait => 12_000,
        DealArchetype::RiskyFixer => if rank < 2 {
            16_000
        } else {
            0
        },
        DealArchetype::LandValuePlay => if rank >= 3 {
            -8_000
        } else {
            0
        },
        DealArchetype::QuietBargain => if rank >= 1 {
            -10_000
        } else {
            0
        },
        DealArchetype::RentalHold => -6_000,
    }
}

/// The walk-away price the research desk recommends: the market-adjusted
/// value less the research, archetype, defect and style buffers, plus
/// reputation relief, floored at the guide and rounded down to $10,000.
/// `style_buffer` is the chosen walk-away style's buffer adjustment.
pub fn recommended_walkaway(
    property: &Property,
    market: &MarketRead,
    level: ResearchLevel,
    style_buffer: i64,
    reputation: i32,
) -> (price: i64)
    requires
        walkaway_target(*property, *market, level, style_buffer as int, reputation as int)
            <= i64::MAX,
        walkaway_price(*property, *market, level, style_buffer as int, reputation as int)
            >= i64::MIN,
    ensures
        price == walkaway_price(*property, *market, level, style_buffer as int, reputation as int),
        price % 10_000 == 0,
        price <= walkaway_target(*property, *market, level, style_buffer as int, reputation as int),
{
    let base_buffer: i64 = match level {
        ResearchLevel::StreetScan => 42_000,
        ResearchLevel::AgentPack => 36_000,
        ResearchLevel::BuildingInspection => 30_000,
        ResearchLevel::FullDiligence => 26_000,
    };
    let archetype_buffer = archetype_walkaway_buffer(property, level);
    let reputation_buffer_relief = reputation_steps_of(reputation) * 2_000;
    let fixer = property.deal_archetype == DealArchetype::RiskyFixer;
    let defect_buffer: i64 = if material_defect_likely(property) {
        match level {
            ResearchLevel::StreetScan | ResearchLevel::AgentPack => if fixer {
                18_000
            } else {
                0
            },
            ResearchLevel::BuildingInspection => if fixer {
                30_000
            } else {
                18_000
            },
            ResearchLevel::FullDiligence => if fixer {
                36_000
            } else {
                28_000
            },
        }
    } else {
        0
    };
    let raw: i128 = market.adjusted_value as i128 - base_buffer as i128 - archetype_buffer as i128
        - defect_buffer as i128 - style_buffer as i128 + reputation_buffer_relief as i128;
    let target: i128 = if raw >= property.guide_price as i128 {
        raw
    } else {
        property.guide_price as i128
    };
    round_down_to_increment(target as i64, 10_000)
}

/// Research corrections never lower the recommended walk-away as the
/// player's reputation grows.
pub proof fn lemma_walkaway_grows_with_reputation(
    property: Property,
    market: MarketRead,
    level: ResearchLevel,
    style_buffer: int,
    lower: int,
    higher: int,
)
    requires
        lower <= higher,
    ensures
        walkaway_price(property, market, level, style_buffer, lower) <= walkaway_price(
            property,
            market,
            level,
            style_buffer,
            higher,
        ),
{
    crate::sim::valuation::lemma_floor_to_monotone(
        walkaway_target(property, market, level, style_buffer, lower),
        walkaway_target(property, market, level, style_buffer, higher),
        10_000,
    );
}

/// A guide price on the $10,000 grid is a floor for the recommended
/// walk-away: the desk never tells the player to stop below the guide.
pub proof fn lemma_walkaway_not_below_guide(
    property: Property,
    market: MarketRead,
    level: ResearchLevel,
    style_buffer: int,
    reputation: int,
)
    requires
        property.guide_price % 10_000 == 0,
    ensures
        property.guide_price <= walkaway_price(property, market, level, style_buffer, reputation),
{
    crate::sim::valuation::lemma_floor_to_keeps_multiple_below(
        walkaway_target(property, market, level, style_buffer, reputation),
        property.guide_price as int,
        10_000,
    );
}

/// Reputation stops counting past six points and below zero: the
/// recommended walk-away for any reputation of six or more is the one for six,
/// and for any reputation of zero or less the one for zero.
pub proof fn lemma_walkaway_reputation_saturates(
    property: Property,
    market: MarketRead,
    level: ResearchLevel,
    style_buffer: int,
    reputation: int,
)
    ensures
        reputation >= 6 ==> walkaway_price(property, market, level, style_buffer, reputation)
            == walkaway_price(property, market, level, style_buffer, 6),
        reputation <= 0 ==> walkaway_price(property, market, level, style_buffer, reputation)
            == walkaway_price(property, market, level, style_buffer, 0),
{
}

/// The same listing with no hidden-defect risk at all.
pub open spec fn defect_free(property: Property) -> Property {
    Property { hidden_defect_risk: 0, ..property }
}

/// A likely material defect costs a repair margin in the walk-away, and costs
/// it exactly as that much more style buffer would on the same home without
/// the defect: for a risky fixer $18,000 from a street scan or agent pack,
/// $30,000 after a building inspection and $36,000 after full diligence; for
/// any other home nothing before an inspection, $18,000 after a building
/// inspection and $28,000 after full diligence. A home without a likely
/// defect keeps no repair margin.
pub proof fn lemma_defect_costs_a_repair_margin(
    property: Property,
    market: MarketRead,
    level: ResearchLevel,
    style_buffer: int,
    reputation: int,
)
    ensures
        !defect_likely(property) ==> walkaway_price(property, market, level, style_buffer, reputation)
            == walkaway_price(defect_free(property), market, level, style_buffer, reputation),
        defect_likely(property) && property.deal_archetype != DealArchetype::RiskyFixer ==> {
            &&& (level == ResearchLevel::StreetScan || level == ResearchLevel::AgentPack)
                ==> walkaway_price(property, market, level, style_buffer, reputation)
                == walkaway_price(defect_free(property), market, level, style_buffer, reputation)
            &&& level == ResearchLevel::BuildingInspection ==> walkaway_price(
                property,
                market,
                level,
                style_buffer,
                reputation,
            ) == walkaway_price(
                defect_free(property),
                market,
                level,
                style_buffer + 18_000,
                reputation,
            )
            &&& level == ResearchLevel::FullDiligence ==> walkaway_price(
                property,
                market,
                level,
                style_buffer,
                reputation,
            ) == walkaway_price(
                defect_free(property),
                market,
                level,
                style_buffer + 28_000,
                reputation,
            )
        },
        defect_likely(property) && property.deal_archetype == DealArchetype::RiskyFixer ==> {
            &&& (level == ResearchLevel::StreetScan || level == ResearchLevel::AgentPack)
                ==> walkaway_price(property, market, level, style_buffer, reputation)
                == walkaway_price(
                defect_free(property),
                market,
                level,
                style_buffer + 18_000,
                reputation,
            )
            &&& level == ResearchLevel::BuildingInspection ==> walkaway_price(
                property,
                market,
                level,
                style_buffer,
                reputation,
            ) == walkaway_price(
                defect_free(property),
                market,
                level,
                style_buffer + 30_000,
                reputation,
            )
            &&& level == ResearchLevel::FullDiligence ==> walkaway_price(
                property,
                market,
                level,
                style_buffer,
                reputation,
            ) == walkaway_price(
                defect_free(property),
                market,
                level,
                style_buffer + 36_000,
                reputation,
            )
        },
{
    assert(!defect_likely(defect_free(property)));
}

/// The guide floor and the $10,000 grid of the walk-away around an unrounded
/// target `raw`.
pub open spec fn walkaway_rounded(raw: int, guide: int) -> int {
    floor_to(if raw >= guide { raw } else { guide }, 10_000)
}

/// The recommended walk-away in figures: the market-adjusted value less the
/// research margin ($42,000 from a street scan, $36,000 from an agent pack,
/// $30,000 after a building inspection, $26,000 after full diligence), the
/// archetype's margin, the repair margin for a likely defect on a home that
/// is not a risky fixer ($18,000 after a building inspection, $28,000 after
/// full diligence) and the style buffer, plus $2,000 per reputation step;
/// never below the guide, and rounded down to $10,000.
pub proof fn lemma_walkaway_in_figures(
    property: Property,
    market: MarketRead,
    level: ResearchLevel,
    style_buffer: int,
    reputation: int,
)
    requires
        !defect_likely(property) || property.deal_archetype != DealArchetype::RiskyFixer,
    ensures
        ({
            let value = market.adjusted_value as int;
            let archetype = archetype_buffer(property.deal_archetype, level);
            let relief = 2_000 * reputation_steps(reputation);
            let repair = defect_likely(property);
            let guide = property.guide_price as int;
            let price = walkaway_price(property, market, level, style_buffer, reputation);
            &&& level == ResearchLevel::StreetScan ==> price == walkaway_rounded(
                value - 42_000 - archetype - style_buffer + relief,
                guide,
            )
            &&& level == ResearchLevel::AgentPack ==> price == walkaway_rounded(
                value - 36_000 - archetype - style_buffer + relief,
                guide,
            )
            &&& level == ResearchLevel::BuildingInspection && !repair ==> price
                == walkaway_rounded(value - 30_000 - archetype - style_buffer + relief, guide)
            &&& level == ResearchLevel::BuildingInspection && repair ==> price
                == walkaway_rounded(
                value - 30_000 - archetype - 18_000 - style_buffer + relief,
                guide,
            )
            &&& level == ResearchLevel::FullDiligence && !repair ==> price == walkaway_rounded(
                value - 26_000 - archetype - style_buffer + relief,
                guide,
            )
            &&& level == ResearchLevel::FullDiligence && repair ==> price == walkaway_rounded(
                value - 26_000 - archetype - 28_000 - style_buffer + relief,
                guide,
            )
        }),
{
}

/// The walk-away margin each deal archetype keeps, in figures: a pretty trap
/// $18,000; a hot-suburb FOMO home $14,000; an auction trap $24,000 from a
/// street scan and $10,000 after more research; a renovator bait $12,000; a
/// risky fixer $16,000 until a building inspection and nothing after; a
/// land-value play nothing until full diligence, which gives $8,000 of relief;
/// a quiet bargain nothing from a street scan and $10,000 of relief after more
/// research; a rental hold $6,000 of relief.
pub proof fn lemma_archetype_margins(level: ResearchLevel)
    ensures
        archetype_buffer(DealArchetype::PrettyTrap, level) == 18_000,
        archetype_buffer(DealArchetype::HotSuburbFomo, level) == 14_000,
        archetype_buffer(DealArchetype::AuctionTrap, level) == if level
            == ResearchLevel::StreetScan {
            24_000int
        } else {
            10_000
        },
        archetype_buffer(DealArchetype::RenovatorBait, level) == 12_000,
        archetype_buffer(DealArchetype::RiskyFixer, level) == if level
            == ResearchLevel::StreetScan || level == ResearchLevel::AgentPack {
            16_000int
        } else {
            0
        },
        archetype_buffer(DealArchetype::LandValuePlay, level) == if level
            == ResearchLevel::FullDiligence {
            -8_000int
        } else {
            0
        },
        archetype_buffer(DealArchetype::QuietBargain, level) == if level
            == ResearchLevel::StreetScan {
            0int
        } else {
            -10_000
        },
        archetype_buffer(DealArchetype::RentalHold, level) == -6_000,
{
}

/// The discount on research, in percent: five per reputation step.
pub open spec fn research_discount(reputation: int) -> int {
    5 * reputation_steps(reputation)
}

/// What a research level costs after the reputation discount: nothing when the
/// level is free, otherwise the discounted price rounded down to $100, and at
/// least $500.
pub open spec fn research_price(level_cost: int, reputation: int) -> int {
    if level_cost == 0 {
        0
    } else {
        let rounded = floor_to(level_cost * (100 - research_discount(reputation)) / 100, 100);
        if rounded >= 500 {
            rounded
        } else {
            500
        }
    }
}

/// The price of a research level (whose list price is `level_cost`) for a
/// player with the given reputation.
pub fn research_cost(level_cost: i64, reputation: i32) -> (cost: i64)
    requires
        level_cost >= 0,
    ensures
        cost == research_price(level_cost as int, reputation as int),
        level_cost == 0 ==> cost == 0,
        level_cost != 0 ==> cost >= 500 && cost % 100 == 0,
{
    if level_cost == 0 {
        return 0;
    }
    let discount = reputation_steps_of(reputation) * 5;
    let factor: i128 = (100 - discount) as i128;
    assert(0 <= level_cost * factor <= 100 * level_cost) by (nonlinear_arith)
        requires
            70 <= factor <= 100,
            level_cost >= 0,
    ;
    let discounted: i128 = level_cost as i128 * factor / 100;
    assert(0 <= discounted <= level_cost) by (nonlinear_arith)
        requires
            discounted == level_cost * factor / 100,
            factor == 100 - discount,
            0 <= discount <= 30,
            level_cost >= 0,
    ;
    let rounded = round_down_to_increment(discounted as i64, 100);
    if rounded >= 500 {
        rounded
    } else {
        500
    }
}

/// A better reputation never makes research dearer.
pub proof fn lemma_research_cost_falls_with_reputation(level_cost: int, lower: int, higher: int)
    requires
        level_cost >= 0,
        lower <= higher,
    ensures
        research_price(level_cost, higher) <= research_price(level_cost, lower),
{
    if level_cost != 0 {
        let a = level_cost * (100 - research_discount(higher));
        let b = level_cost * (100 - research_discount(lower));
        assert(a <= b) by (nonlinear_arith)
            requires
                a == level_cost * (100 - research_discount(higher)),
                b == level_cost * (100 - research_discount(lower)),
                research_discount(lower) <= research_discount(higher),
                level_cost >= 0,
        ;
        vstd::arithmetic::div_mod::lemma_div_is_ordered(a, b, 100);
        crate::sim::valuation::lemma_floor_to_monotone(a / 100, b / 100, 100);
    }
}

/// A research level's price: free levels cost nothing, any other costs at
/// least $500 and a whole number of $100; the discount stops at six points of
/// reputation (30%) and gives nothing below zero.
pub proof fn lemma_research_price_shape(level_cost: int, reputation: int)
    requires
        level_cost >= 0,
    ensures
        level_cost == 0 ==> research_price(level_cost, reputation) == 0,
        level_cost > 0 ==> research_price(level_cost, reputation) >= 500
            && research_price(level_cost, reputation) % 100 == 0,
        reputation >= 6 ==> research_price(level_cost, reputation) == research_price(level_cost, 6),
        reputation <= 0 ==> research_price(level_cost, reputation) == research_price(level_cost, 0),
{
    if level_cost > 0 {
        let discounted = level_cost * (100 - research_discount(reputation)) / 100;
        vstd::arithmetic::div_mod::lemma_fundamental_div_mod(discounted, 100);
        assert(floor_to(discounted, 100) == 100 * (discounted / 100));
        vstd::arithmetic::div_mod::lemma_mod_multiples_basic(discounted / 100, 100);
        assert(500int % 100 == 0);
    }
}

/// The research price in figures: with no reputation a paid level costs its
/// list price rounded down to $100 (at least $500); each reputation point up
/// to six takes 5% off the list price before that rounding, so six points or
/// more pay 70% of it.
pub proof fn lemma_research_price_in_figures(level_cost: int, reputation: int)
    requires
        level_cost > 0,
    ensures
        ({
            let points = if reputation < 0 {
                0
            } else if reputation > 6 {
                6
            } else {
                reputation
            };
            let rounded = floor_to(level_cost * (100 - 5 * points) / 100, 100);
            research_price(level_cost, reputation) == if rounded >= 500 {
                rounded
            } else {
                500
            }
        }),
        research_price(level_cost, 0) == if floor_to(level_cost, 100) >= 500 {
            floor_to(level_cost, 100)
        } else {
            500
        },
        research_price(level_cost, 6) == if floor_to(level_cost * 70 / 100, 100) >= 500 {
            floor_to(level_cost * 70 / 100, 100)
        } else {
            500
        },
{
    assert(level_cost * 100 / 100 == level_cost) by (nonlinear_arith);
}

/// How much a deal archetype widens (or narrows) the value range at a research
/// level, in thousandths.
pub open spec fn archetype_noise(archetype: DealArchetype, level: ResearchLevel) -> int {
    match archetype {
        DealArchetype::RiskyFixer | DealArchetype::AuctionTrap => if level_rank(level) < 2 {
            25
        } else {
            0
        },
        DealArchetype::PrettyTrap => if level == ResearchLevel::StreetScan {
            15
        } else {
            0
        },
        DealArchetype::QuietBargain => if level_rank(level) >= 1 {
            -8
        } else {
            0
        },
        _ => 0,
    }
}

/// The half-width of the researched value range, in thousandths of the
/// value: the level's width plus the archetype's noise, less 0.003 of accuracy
/// per reputation step, and never under 0.018.
pub open spec fn range_width(
    archetype: DealArchetype,
    level: ResearchLevel,
    level_width: int,
    reputation: int,
) -> int {
    let width = level_width + archetype_noise(archetype, level) - 3 * reputation_steps(reputation);
    if width >= 18 {
        width
    } else {
        18
    }
}

/// The half-width of the value range in figures (thousandths of the value):
/// the level's own width, plus 25 for a risky fixer or an auction trap until
/// a building inspection, plus 15 for a pretty trap on a street scan, less 8
/// for a quiet bargain once past a street scan, less 3 per reputation step;
/// never under 18.
pub proof fn lemma_range_width_in_figures(
    archetype: DealArchetype,
    level: ResearchLevel,
    level_width: int,
    reputation: int,
)
    ensures
        ({
            let early = level == ResearchLevel::StreetScan || level == ResearchLevel::AgentPack;
            let noise = if (archetype == DealArchetype::RiskyFixer || archetype
                == DealArchetype::AuctionTrap) && early {
                25int
            } else if archetype == DealArchetype::PrettyTrap && level
                == ResearchLevel::StreetScan {
                15
            } else if archetype == DealArchetype::QuietBargain && level
                != ResearchLevel::StreetScan {
                -8
            } else {
                0
            };
            let width = level_width + noise - 3 * reputation_steps(reputation);
            range_width(archetype, level, level_width, reputation) == if width >= 18 {
                width
            } else {
                18
            }
        }),
{
}

/// The low end of the researched value range.
pub open spec fn range_low(value: int, width: int) -> int {
    nearest_thousand(value * (1000 - width), 1000)
}

/// The high end of the researched value range.
pub open spec fn range_high(value: int, width: int) -> int {
    nearest_thousand(value * (1000 + width), 1000)
}

/// The value band research supports: the market-adjusted value, less and plus
/// the range width, each rounded to the nearest $1,000. `level_width` is the
/// research level's own width in thousandths.
pub fn researched_value_range(
    property: &Property,
    market: &MarketRead,
    level: ResearchLevel,
    level_width: i32,
    reputation: i32,
) -> (range: (i64, i64))
    requires
        i64::MIN <= range_low(
            market.adjusted_value as int,
            range_width(property.deal_archetype, level, level_width as int, reputation as int),
        ) <= i64::MAX,
        i64::MIN <= range_high(
            market.adjusted_value as int,
            range_width(property.deal_archetype, level, level_width as int, reputation as int),
        ) <= i64::MAX,
    ensures
        ({
            let width = range_width(
                property.deal_archetype,
                level,
                level_width as int,
                reputation as int,
            );
            &&& range.0 == range_low(market.adjusted_value as int, width)
            &&& range.1 == range_high(market.adjusted_value as int, width)
        }),
{
    let rank = level.rank();
    let archetype_noise: i64 = match property.deal_archetype {
        DealArchetype::RiskyFixer | DealArchetype::AuctionTrap => if rank < 2 {
            25
        } else {
            0
        },
        DealArchetype::PrettyTrap => if rank == 0 {
            15
        } else {
            0
        },
        DealArchetype::QuietBargain => if rank >= 1 {
            -8
        } else {
            0
        },
        _ => 0,
    };
    let reputation_accuracy = reputation_steps_of(reputation) * 3;
    let raw_width = level_width as i64 + archetype_noise - reputation_accuracy;
    let width: i64 = if raw_width >= 18 {
        raw_width
    } else {
        18
    };
    let value = market.adjusted_value as i128;
    let below: i128 = 1000 - width as i128;
    let above: i128 = 1000 + width as i128;
    assert(-0x1_0000_0000_0000_0000_0000_0000i128 <= value * below
        <= 0x1_0000_0000_0000_0000_0000_0000i128) by (nonlinear_arith)
        requires
            -0x8000_0000_0000_0000i128 <= value <= 0x8000_0000_0000_0000i128,
            -0x1_0000_0000i128 <= below <= 0x1_0000_0000i128,
    ;
    assert(-0x1_0000_0000_0000_0000_0000_0000i128 <= value * above
        <= 0x1_0000_0000_0000_0000_0000_0000i128) by (nonlinear_arith)
        requires
            -0x8000_0000_0000_0000i128 <= value <= 0x8000_0000_0000_0000i128,
            -0x1_0000_0000i128 <= above <= 0x1_0000_0000i128,
    ;
    let low = round_to_1000(value * below, 1000);
    let high = round_to_1000(value * above, 1000);
    (low as i64, high as i64)
}

/// A better reputation only narrows the researched value range of a home of
/// non-negative value: the low end never falls and the high end never rises.
pub proof fn lemma_range_narrows_with_reputation(
    value: int,
    archetype: DealArchetype,
    level: ResearchLevel,
    level_width: int,
    lower: int,
    higher: int,
)
    requires
        value >= 0,
        lower <= higher,
    ensures
        range_low(value, range_width(archetype, level, level_width, lower)) <= range_low(
            value,
            range_width(archetype, level, level_width, higher),
        ),
        range_high(value, range_width(archetype, level, level_width, higher)) <= range_high(
            value,
            range_width(archetype, level, level_width, lower),
        ),
{
    let wide = range_width(archetype, level, level_width, lower);
    let narrow = range_width(archetype, level, level_width, higher);
    assert(narrow <= wide);
    assert(value * (1000 - wide) <= value * (1000 - narrow)) by (nonlinear_arith)
        requires
            value >= 0,
            narrow <= wide,
    ;
    assert(value * (1000 + narrow) <= value * (1000 + wide)) by (nonlinear_arith)
        requires
            value >= 0,
            narrow <= wide,
    ;
    crate::sim::valuation::lemma_nearest_thousand_monotone(
        value * (1000 - wide),
        value * (1000 - narrow),
        1000,
    );
    crate::sim::valuation::lemma_nearest_thousand_monotone(
        value * (1000 + narrow),
        value * (1000 + wide),
        1000,
    );
}

/// The researched range of a home of non-negative value is a band: its low
/// end never lies above its high end.
pub proof fn lemma_range_is_ordered(
    value: int,
    archetype: DealArchetype,
    level: ResearchLevel,
    level_width: int,
    reputation: int,
)
    requires
        value >= 0,
    ensures
        range_low(value, range_width(archetype, level, level_width, reputation)) <= range_high(
            value,
            range_width(archetype, level, level_width, reputation),
        ),
{
    let width = range_width(archetype, level, level_width, reputation);
    assert(value * (1000 - width) <= value * (1000 + width)) by (nonlinear_arith)
        requires
            value >= 0,
            width >= 18,
    ;
    crate::sim::valuation::lemma_nearest_thousand_monotone(
        value * (1000 - width),
        value * (1000 + width),
        1000,
    );
}

/// The researched range stops narrowing at six points of reputation and
/// stops widening at zero.
pub proof fn lemma_range_reputation_saturates(
    archetype: DealArchetype,
    level: ResearchLevel,
    level_width: int,
    reputation: int,
)
    ensures
        reputation >= 6 ==> range_width(archetype, level, level_width, reputation) == range_width(
            archetype,
            level,
            level_width,
            6,
        ),
        reputation <= 0 ==> range_width(archetype, level, level_width, reputation) == range_width(
            archetype,
            level,
            level_width,
            0,
        ),
{
}

/// Deeper research buys a narrower value range: when the deeper level's own
/// width is no wider, the archetype noise only falls as research deepens, so
/// the range never widens.
pub proof fn lemma_deeper_research_narrows_the_range(
    archetype: DealArchetype,
    shallower: ResearchLevel,
    deeper: ResearchLevel,
    shallow_width: int,
    deep_width: int,
    reputation: int,
)
    requires
        level_rank(shallower) <= level_rank(deeper),
        deep_width <= shallow_width,
    ensures
        range_width(archetype, deeper, deep_width, reputation) <= range_width(
            archetype,
            shallower,
            shallow_width,
            reputation,
        ),
{
}

/// How far below the true reserve each research level tends to guess.
pub open spec fn confidence_gap(level: ResearchLevel) -> int {
    match level {
        ResearchLevel::StreetScan => -20_000,
        ResearchLevel::AgentPack => -8_000,
        ResearchLevel::BuildingInspection => -4_000,
        ResearchLevel::FullDiligence => 0,
    }
}

/// How a deal archetype skews the reserve estimate at a research level.
pub open spec fn reserve_archetype_gap(archetype: DealArchetype, level: ResearchLevel) -> int {
    match archetype {
        DealArchetype::AuctionTrap => if level == ResearchLevel::StreetScan {
            -28_000
        } else if level == ResearchLevel::AgentPack {
            -8_000
        } else {
            0
        },
        DealArchetype::PrettyTrap => if level_rank(level) < 3 {
            10_000
        } else {
            0
        },
        DealArchetype::QuietBargain => if level_rank(level) >= 1 {
            -5_000
        } else {
            0
        },
        _ => 0,
    }
}

/// The suburb's pull on the reserve: $30,000 per unit of the suburb modifier
/// (given in thousandths), rounded to the nearest $1,000.
pub open spec fn market_gap(suburb_modifier: int) -> int {
    nearest_thousand(suburb_modifier * 30, 1)
}

/// The reserve the player should expect: the vendor's reserve shifted by the
/// research, archetype and market gaps and $2,000 per reputation step,
/// rounded down to $5,000.
pub open spec fn reserve_estimate(
    property: Property,
    market: MarketRead,
    level: ResearchLevel,
    reputation: int,
) -> int {
    floor_to(
        property.reserve_price + confidence_gap(level) + reserve_archetype_gap(
            property.deal_archetype,
            level,
        ) + market_gap(market.suburb_modifier as int) + 2_000 * reputation_steps(reputation),
        5_000,
    )
}

/// The research desk's estimate of the vendor's hidden reserve.
pub fn estimate_reserve(
    property: &Property,
    market: &MarketRead,
    level: ResearchLevel,
    reputation: i32,
) -> (estimate: i64)
    requires
        property.reserve_price + confidence_gap(level) + reserve_archetype_gap(
            property.deal_archetype,
            level,
        ) + market_gap(market.suburb_modifier as int) + 2_000 * reputation_steps(reputation as int)
            <= i64::MAX,
        reserve_estimate(*property, *market, level, reputation as int) >= i64::MIN,
    ensures
        estimate == reserve_estimate(*property, *market, level, reputation as int),
        estimate % 5_000 == 0,
{
    let confidence_gap: i64 = match level {
        ResearchLevel::StreetScan => -20_000,
        ResearchLevel::AgentPack => -8_000,
        ResearchLevel::BuildingInspection => -4_000,
        ResearchLevel::FullDiligence => 0,
    };
    let rank = level.rank();
    let archetype_gap: i64 = match property.deal_archetype {
        DealArchetype::AuctionTrap => if rank == 0 {
            -28_000
        } else if rank == 1 {
            -8_000
        } else {
            0
        },
        DealArchetype::PrettyTrap => if rank < 3 {
            10_000
        } else {
            0
        },
        DealArchetype::QuietBargain => if rank >= 1 {
            -5_000
        } else {
            0
        },
        _ => 0,
    };
    let reputation_correction = reputation_steps_of(reputation) * 2_000;
    let market_gap = round_to_1000(market.suburb_modifier as i128 * 30, 1);
    let total: i128 = property.reserve_price as i128 + confidence_gap as i128 + archetype_gap
        as i128 + market_gap + reputation_correction as i128;
    round_down_to_increment(total as i64, 5_000)
}

/// A better reputation never lowers the reserve estimate: it corrects the
/// research desk's habit of guessing low.
pub proof fn lemma_reserve_estimate_grows_with_reputation(
    property: Property,
    market: MarketRead,
    level: ResearchLevel,
    lower: int,
    higher: int,
)
    requires
        lower <= higher,
    ensures
        reserve_estimate(property, market, level, lower) <= reserve_estimate(
            property,
            market,
            level,
            higher,
        ),
{
    let common = property.reserve_price + confidence_gap(level) + reserve_archetype_gap(
        property.deal_archetype,
        level,
    ) + market_gap(market.suburb_modifier as int);
    crate::sim::valuation::lemma_floor_to_monotone(
        common + 2_000 * reputation_steps(lower),
        common + 2_000 * reputation_steps(higher),
        5_000,
    );
}

/// The reserve estimate is always a whole number of $5,000, and reputation
/// stops correcting it at six points and below zero.
pub proof fn lemma_reserve_estimate_shape(
    property: Property,
    market: MarketRead,
    level: ResearchLevel,
    reputation: int,
)
    ensures
        reserve_estimate(property, market, level, reputation) % 5_000 == 0,
        reputation >= 6 ==> reserve_estimate(property, market, level, reputation)
            == reserve_estimate(property, market, level, 6),
        reputation <= 0 ==> reserve_estimate(property, market, level, reputation)
            == reserve_estimate(property, market, level, 0),
{
    let raw = property.reserve_price + confidence_gap(level) + reserve_archetype_gap(
        property.deal_archetype,
        level,
    ) + market_gap(market.suburb_modifier as int) + 2_000 * reputation_steps(reputation);
    vstd::arithmetic::div_mod::lemma_fundamental_div_mod(raw, 5_000);
    vstd::arithmetic::div_mod::lemma_mod_multiples_basic(raw / 5_000, 5_000);
    vstd::arithmetic::mul::lemma_mul_is_commutative(raw / 5_000, 5_000);
}

/// The same listing read as a plain rental hold.
pub open spec fn plain_twin(property: Property) -> Property {
    Property { deal_archetype: DealArchetype::RentalHold, ..property }
}

/// The reserve estimate in figures: the vendor's reserve shifted by the
/// research level's gap and the archetype's skew, plus the suburb's pull and
/// $2,000 per reputation step, rounded down to $5,000. An auction trap reads
/// $48,000 low from a street scan, $16,000 low from an agent pack, $4,000 low
/// after a building inspection and true after full diligence; a pretty trap
/// $10,000 low, then $2,000 and $6,000 high, then true; a quiet bargain
/// $20,000, $13,000, $9,000 and $5,000 low; any other home $20,000, $8,000,
/// $4,000 low and then true.
pub proof fn lemma_reserve_estimate_in_figures(
    property: Property,
    market: MarketRead,
    level: ResearchLevel,
    reputation: int,
)
    ensures
        ({
            let shifted = |gap: int|
                floor_to(
                    property.reserve_price + gap + market_gap(market.suburb_modifier as int)
                        + 2_000 * reputation_steps(reputation),
                    5_000,
                );
            let estimate = reserve_estimate(property, market, level, reputation);
            let kind = property.deal_archetype;
            let plain = kind != DealArchetype::AuctionTrap && kind != DealArchetype::PrettyTrap
                && kind != DealArchetype::QuietBargain;
            &&& kind == DealArchetype::AuctionTrap ==> {
                &&& level == ResearchLevel::StreetScan ==> estimate == shifted(-48_000)
                &&& level == ResearchLevel::AgentPack ==> estimate == shifted(-16_000)
                &&& level == ResearchLevel::BuildingInspection ==> estimate == shifted(-4_000)
                &&& level == ResearchLevel::FullDiligence ==> estimate == shifted(0)
            }
            &&& kind == DealArchetype::PrettyTrap ==> {
                &&& level == ResearchLevel::StreetScan ==> estimate == shifted(-10_000)
                &&& level == ResearchLevel::AgentPack ==> estimate == shifted(2_000)
                &&& level == ResearchLevel::BuildingInspection ==> estimate == shifted(6_000)
                &&& level == ResearchLevel::FullDiligence ==> estimate == shifted(0)
            }
            &&& kind == DealArchetype::QuietBargain ==> {
                &&& level == ResearchLevel::StreetScan ==> estimate == shifted(-20_000)
                &&& level == ResearchLevel::AgentPack ==> estimate == shifted(-13_000)
                &&& level == ResearchLevel::BuildingInspection ==> estimate == shifted(-9_000)
                &&& level == ResearchLevel::FullDiligence ==> estimate == shifted(-5_000)
            }
            &&& plain ==> {
                &&& level == ResearchLevel::StreetScan ==> estimate == shifted(-20_000)
                &&& level == ResearchLevel::AgentPack ==> estimate == shifted(-8_000)
                &&& level == ResearchLevel::BuildingInspection ==> estimate == shifted(-4_000)
                &&& level == ResearchLevel::FullDiligence ==> estimate == shifted(0)
            }
        }),
{
}

/// An auction trap hides its reserve from a street scan: the estimate reads
/// at least $25,000 below the estimate for the same home as a plain rental
/// hold, while after full diligence the two read alike.
pub proof fn lemma_street_scan_misreads_an_auction_trap(
    property: Property,
    market: MarketRead,
    reputation: int,
)
    requires
        property.deal_archetype == DealArchetype::AuctionTrap,
    ensures
        reserve_estimate(property, market, ResearchLevel::StreetScan, reputation) + 25_000
            <= reserve_estimate(plain_twin(property), market, ResearchLevel::StreetScan, reputation),
        reserve_estimate(property, market, ResearchLevel::FullDiligence, reputation)
            == reserve_estimate(plain_twin(property), market, ResearchLevel::FullDiligence, reputation),
{
    let x = property.reserve_price - 20_000 + market_gap(market.suburb_modifier as int)
        + 2_000 * reputation_steps(reputation);
    lemma_floor_gap(x, 28_000, 5_000);
}

/// Lowering a value by `drop` lowers its floor to a multiple of `step` by at
/// least `drop` less one step.
proof fn lemma_floor_gap(x: int, drop: int, step: int)
    requires
        step > 0,
        drop >= 0,
    ensures
        floor_to(x - drop, step) + drop - step < floor_to(x, step),
{
    vstd::arithmetic::div_mod::lemma_fundamental_div_mod(x, step);
    vstd::arithmetic::div_mod::lemma_fundamental_div_mod(x - drop, step);
    vstd::arithmetic::div_mod::lemma_mod_bound(x, step);
    vstd::arithmetic::div_mod::lemma_mod_bound(x - drop, step);
}

/// The full repair allowance for the home's condition: its market value times
/// the condition's defect penalty rate (in thousandths), to the nearest $1,000.
pub open spec fn base_defect_allowance(market_value: int, defect_penalty_rate: int) -> int {
    nearest_thousand(market_value * defect_penalty_rate, 1000)
}

/// The share of the full repair allowance each research level sees, in
/// hundredths: 55 from a street scan, 75 from an agent pack, all of it from an
/// inspection and 112 from full diligence.
pub open spec fn allowance_share(level: ResearchLevel) -> int {
    match level {
        ResearchLevel::StreetScan => 55,
        ResearchLevel::AgentPack => 75,
        ResearchLevel::BuildingInspection => 100,
        ResearchLevel::FullDiligence => 112,
    }
}

/// The repair allowance a research level suggests holding back.
pub open spec fn defect_allowance_amount(
    market_value: int,
    defect_penalty_rate: int,
    level: ResearchLevel,
) -> int {
    let base = base_defect_allowance(market_value, defect_penalty_rate);
    if level == ResearchLevel::BuildingInspection {
        base
    } else {
        nearest_thousand(base * allowance_share(level), 100)
    }
}

/// The repair allowance by research level, in figures: a building inspection
/// holds back the full allowance for the home's condition; a street scan 55%
/// of it, an agent pack 75% and full diligence 112%, each to the nearest
/// $1,000.
pub proof fn lemma_allowance_shares(market_value: int, defect_penalty_rate: int)
    ensures
        ({
            let full = base_defect_allowance(market_value, defect_penalty_rate);
            &&& defect_allowance_amount(
                market_value,
                defect_penalty_rate,
                ResearchLevel::BuildingInspection,
            ) == full
            &&& defect_allowance_amount(market_value, defect_penalty_rate, ResearchLevel::StreetScan)
                == nearest_thousand(full * 55, 100)
            &&& defect_allowance_amount(market_value, defect_penalty_rate, ResearchLevel::AgentPack)
                == nearest_thousand(full * 75, 100)
            &&& defect_allowance_amount(
                market_value,
                defect_penalty_rate,
                ResearchLevel::FullDiligence,
            ) == nearest_thousand(full * 112, 100)
        }),
{
}

/// The repair money a research level suggests holding back on this home;
/// `defect_penalty_rate` is the home condition's penalty rate in thousandths.
pub fn defect_allowance(
    property: &Property,
    level: ResearchLevel,
    defect_penalty_rate: u32,
) -> (allowance: i64)
    requires
        i64::MIN <= defect_allowance_amount(
            property.market_value as int,
            defect_penalty_rate as int,
            level,
        ) <= i64::MAX,
    ensures
        allowance == defect_allowance_amount(
            property.market_value as int,
            defect_penalty_rate as int,
            level,
        ),
{
    let value = property.market_value as i128;
    let rate = defect_penalty_rate as i128;
    assert(-0x1_0000_0000_0000_0000_0000_0000i128 <= value * rate
        <= 0x1_0000_0000_0000_0000_0000_0000i128) by (nonlinear_arith)
        requires
            -0x8000_0000_0000_0000i128 <= value <= 0x8000_0000_0000_0000i128,
            0 <= rate <= 0x1_0000_0000i128,
    ;
    let base = round_to_1000(value * rate, 1000);
    proof {
        lemma_base_allowance_bound(value * rate);
    }
    match level {
        ResearchLevel::StreetScan => round_to_1000(base * 55, 100) as i64,
        ResearchLevel::AgentPack => round_to_1000(base * 75, 100) as i64,
        ResearchLevel::BuildingInspection => base as i64,
        ResearchLevel::FullDiligence => round_to_1000(base * 112, 100) as i64,
    }
}

proof fn lemma_base_allowance_bound(n: int)
    requires
        -0x1_0000_0000_0000_0000_0000_0000 <= n <= 0x1_0000_0000_0000_0000_0000_0000,
    ensures
        -0x100_0000_0000_0000_0000_0000 <= nearest_thousand(n, 1000) <= 0x100_0000_0000_0000_0000_0000,
{
    if n >= 0 {
        assert((2 * n + 1_000_000) / 2_000_000 <= 0x1_0000_0000_0000_0000_0000) by (nonlinear_arith)
            requires 0 <= n <= 0x1_0000_0000_0000_0000_0000_0000int;
        assert((2 * n + 1_000_000) / 2_000_000 >= 0) by (nonlinear_arith)
            requires 0 <= n;
    } else {
        assert((-2 * n + 1_000_000) / 2_000_000 <= 0x1_0000_0000_0000_0000_0000) by (nonlinear_arith)
            requires 0 < -n <= 0x1_0000_0000_0000_0000_0000_0000int;
        assert((-2 * n + 1_000_000) / 2_000_000 >= 0) by (nonlinear_arith)
            requires n < 0;
    }
}

/// Deeper research never shrinks the repair allowance of a home of
/// non-negative value: a street scan sees the least, an agent pack more, an
/// inspection the full allowance, and full diligence a margin above it.
pub proof fn lemma_defect_allowance_grows_with_research(market_value: int, defect_penalty_rate: int)
    requires
        market_value >= 0,
        defect_penalty_rate >= 0,
    ensures
        defect_allowance_amount(market_value, defect_penalty_rate, ResearchLevel::StreetScan)
            <= defect_allowance_amount(market_value, defect_penalty_rate, ResearchLevel::AgentPack),
        defect_allowance_amount(market_value, defect_penalty_rate, ResearchLevel::AgentPack)
            <= defect_allowance_amount(
            market_value,
            defect_penalty_rate,
            ResearchLevel::BuildingInspection,
        ),
        defect_allowance_amount(
            market_value,
            defect_penalty_rate,
            ResearchLevel::BuildingInspection,
        ) <= defect_allowance_amount(
            market_value,
            defect_penalty_rate,
            ResearchLevel::FullDiligence,
        ),
{
    let base = base_defect_allowance(market_value, defect_penalty_rate);
    let k = (2 * (market_value * defect_penalty_rate) + 1_000_000) / 2_000_000;
    assert(market_value * defect_penalty_rate >= 0) by (nonlinear_arith)
        requires market_value >= 0, defect_penalty_rate >= 0;
    assert(k >= 0) by (nonlinear_arith)
        requires k == (2 * (market_value * defect_penalty_rate) + 1_000_000) / 2_000_000,
            market_value * defect_penalty_rate >= 0;
    assert(base == 1000 * k);
    assert(base * 55 <= base * 75 <= base * 100 <= base * 112) by (nonlinear_arith)
        requires base == 1000 * k, k >= 0;
    crate::sim::valuation::lemma_nearest_thousand_monotone(base * 55, base * 75, 100);
    crate::sim::valuation::lemma_nearest_thousand_monotone(base * 75, base * 100, 100);
    crate::sim::valuation::lemma_nearest_thousand_monotone(base * 100, base * 112, 100);
    assert((2 * (base * 100) + 100_000) / 200_000 == k) by (nonlinear_arith)
        requires base == 1000 * k, k >= 0;
    assert(nearest_thousand(base * 100, 100) == base);
}

/// Every repair allowance is a whole number of $1,000, and an inspection sees
/// exactly the condition's full allowance.
pub proof fn lemma_defect_allowance_on_thousands(
    market_value: int,
    defect_penalty_rate: int,
    level: ResearchLevel,
)
    ensures
        defect_allowance_amount(market_value, defect_penalty_rate, level) % 1_000 == 0,
        defect_allowance_amount(market_value, defect_penalty_rate, ResearchLevel::BuildingInspection)
            == base_defect_allowance(market_value, defect_penalty_rate),
{
    let base = base_defect_allowance(market_value, defect_penalty_rate);
    vstd::arithmetic::div_mod::lemma_mod_multiples_basic(
        round_half_away(market_value * defect_penalty_rate, 1_000_000),
        1000,
    );
    vstd::arithmetic::div_mod::lemma_mod_multiples_basic(
        round_half_away(base * allowance_share(level), 100_000),
        1000,
    );
}

/// A comparable sale near the home: the market-adjusted value shifted by the
/// comparable's spread (-$24,000, +$6,000, or +$22,000 from the third on) and
/// $2,000 per listing id.
pub open spec fn comparable_value(property: Property, market: MarketRead, index: int) -> int {
    let spread = if index == 0 {
        -24_000
    } else if index == 1 {
        6_000
    } else {
        22_000
    };
    market.adjusted_value + spread + property.id * 2_000
}

/// The sale price of the comparable home at `index`.
pub fn comparable_sale_value(property: &Property, market: &MarketRead, index: usize) -> (value: i64)
    requires
        i64::MIN <= comparable_value(*property, *market, index as int) <= i64::MAX,
    ensures
        value == comparable_value(*property, *market, index as int),
{
    let spread: i128 = match index {
        0 => -24_000,
        1 => 6_000,
        _ => 22_000,
    };
    (market.adjusted_value as i128 + spread + property.id as i128 * 2_000) as i64
}

/// The comparables step up from the first: the second sold $30,000 above it,
/// the third $16,000 above the second, and every later index repeats the
/// third.
pub proof fn lemma_comparable_spreads(property: Property, market: MarketRead, index: int)
    ensures
        comparable_value(property, market, 0) == market.adjusted_value - 24_000 + 2_000
            * property.id,
        comparable_value(property, market, 1) - comparable_value(property, market, 0) == 30_000,
        comparable_value(property, market, 2) - comparable_value(property, market, 1) == 16_000,
        index >= 2 ==> comparable_value(property, market, index) == comparable_value(
            property,
            market,
            2,
        ),
{
}

/// The suburb modifier (in thousandths) as whole points of buyer demand,
/// truncated toward zero.
pub open spec fn demand_shift(suburb_modifier: int) -> int {
    if suburb_modifier >= 0 {
        suburb_modifier / 10
    } else {
        -((-suburb_modifier) / 10)
    }
}

/// The one-sentence takeaway of a research level. `lesson` and `temptation`
/// are the listing archetype's authored lines; `defect_penalty_rate` is the
/// home condition's penalty rate in thousandths.
pub open spec fn takeaway_text(
    property: Property,
    market: MarketRead,
    level: ResearchLevel,
    lesson: Seq<char>,
    temptation: Seq<char>,
    defect_penalty_rate: int,
) -> Seq<char> {
    match level {
        ResearchLevel::StreetScan => lesson + ". Public data says "@ + demand_text(
            property.buyer_demand as int,
        ) + " demand with a wide value band."@,
        ResearchLevel::AgentPack => "Reserve likely sits near "@ + money_text(
            reserve_estimate(property, market, level, 0),
        ) + ". Buyer interest looks "@ + demand_text(
            property.buyer_demand + demand_shift(market.suburb_modifier as int),
        ) + " against this guide."@,
        ResearchLevel::BuildingInspection => if defect_likely(property) {
            "Building risk is real. Hold back at least "@ + money_text(
                defect_allowance_amount(property.market_value as int, defect_penalty_rate, level),
            ) + " for repairs."@
        } else {
            "No major defect surfaced. The risk is now price discipline, not repair shock."@
        },
        ResearchLevel::FullDiligence => "The thesis is now testable: "@ + property.best_strategy@
            + " Avoid the trap to "@ + temptation + "."@,
    }
}

/// What the player learned from the research they bought.
pub fn research_takeaway(
    property: &Property,
    market: &MarketRead,
    level: ResearchLevel,
    lesson: &str,
    temptation: &str,
    defect_penalty_rate: u32,
) -> (text: String)
    requires
        level == ResearchLevel::AgentPack ==> {
            &&& property.reserve_price + confidence_gap(level) + reserve_archetype_gap(
                property.deal_archetype,
                level,
            ) + market_gap(market.suburb_modifier as int) <= i64::MAX
            &&& reserve_estimate(*property, *market, level, 0) >= i64::MIN
            &&& i32::MIN <= property.buyer_demand + demand_shift(market.suburb_modifier as int)
                <= i32::MAX
        },
        level == ResearchLevel::BuildingInspection ==> i64::MIN <= defect_allowance_amount(
            property.market_value as int,
            defect_penalty_rate as int,
            level,
        ) <= i64::MAX,
    ensures
        text@ == takeaway_text(
            *property,
            *market,
            level,
            lesson@,
            temptation@,
            defect_penalty_rate as int,
        ),
{
    match level {
        ResearchLevel::StreetScan => {
            let mut text = String::from_str(lesson);
            text.append(". Public data says ");
            text.append(demand_word(property.buyer_demand));
            text.append(" demand with a wide value band.");
            text
        },
        ResearchLevel::AgentPack => {
            let reserve = estimate_reserve(property, market, level, 0);
            let shift: i32 = market.suburb_modifier / 10;
            let mut text = String::from_str("Reserve likely sits near ");
            let money = format_money(reserve);
            text.append(money.as_str());
            text.append(". Buyer interest looks ");
            text.append(demand_word(property.buyer_demand + shift));
            text.append(" against this guide.");
            text
        },
        ResearchLevel::BuildingInspection => {
            if material_defect_likely(property) {
                let allowance = defect_allowance(property, level, defect_penalty_rate);
                let mut text = String::from_str("Building risk is real. Hold back at least ");
                let money = format_money(allowance);
                text.append(money.as_str());
                text.append(" for repairs.");
                text
            } else {
                String::from_str(
                    "No major defect surfaced. The risk is now price discipline, not repair shock.",
                )
            }
        },
        ResearchLevel::FullDiligence => {
            let mut text = String::from_str("The thesis is now testable: ");
            text.append(property.best_strategy.as_str());
            text.append(" Avoid the trap to ");
            text.append(temptation);
            text.append(".");
            text
        },
    }
}

} // verus!
