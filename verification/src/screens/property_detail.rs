use vstd::prelude::*;
use crate::model::property::{Condition, Property, ResearchLevel};
use crate::model::property::level_rank;
use crate::sim::research::{
    known_risk, known_risk_level, recommended_walkaway, research_cost, research_price,
    walkaway_price, walkaway_target, KnownRisk, MarketRead,
};
use crate::ui::format_money;
use crate::ui::money::money_text;
use crate::ui::{ButtonTone, Palette};

verus! {

/// The verdict on the margin between the researched value and the walk-away.
pub fn walkaway_verdict(margin: i64) -> (text: &'static str)
    ensures
        text@ == if margin >= 45_000 {
            "Safe bid plan"@
        } else if margin >= 0 {
            "Thin margin"@
        } else {
            "Bad deal line"@
        },
{
    if margin >= 45_000 {
        "Safe bid plan"
    } else if margin >= 0 {
        "Thin margin"
    } else {
        "Bad deal line"
    }
}

/// The listing's risk badge at the research level bought.
pub fn risk_badge(property: &Property, level: ResearchLevel) -> (text: &'static str)
    ensures
        text@ == match known_risk(*property, level) {
            KnownRisk::Unverified => "RISK UNVERIFIED"@,
            KnownRisk::Low => "LOW RISK KNOWN"@,
            KnownRisk::Moderate => "MODERATE RISK"@,
            KnownRisk::Elevated => "ELEVATED RISK"@,
        },
{
    match known_risk_level(property, level) {
        KnownRisk::Unverified => "RISK UNVERIFIED",
        KnownRisk::Low => "LOW RISK KNOWN",
        KnownRisk::Moderate => "MODERATE RISK",
        KnownRisk::Elevated => "ELEVATED RISK",
    }
}

/// The colour of the risk badge.
pub fn risk_color(property: &Property, level: ResearchLevel) -> (color: Palette)
    ensures
        color == match known_risk(*property, level) {
            KnownRisk::Unverified => Palette::Blue,
            KnownRisk::Low => Palette::Positive,
            KnownRisk::Moderate => Palette::Warning,
            KnownRisk::Elevated => Palette::Negative,
        },
{
    match known_risk_level(property, level) {
        KnownRisk::Unverified => Palette::Blue,
        KnownRisk::Low => Palette::Positive,
        KnownRisk::Moderate => Palette::Warning,
        KnownRisk::Elevated => Palette::Negative,
    }
}

/// The colour of the listing's condition.
pub fn condition_color(property: &Property) -> (color: Palette)
    ensures
        color == match property.condition {
            Condition::Rough => Palette::Negative,
            Condition::Tired => Palette::Warning,
            Condition::Solid => Palette::Positive,
            Condition::Premium => Palette::Blue,
        },
{
    match property.condition {
        Condition::Rough => Palette::Negative,
        Condition::Tired => Palette::Warning,
        Condition::Solid => Palette::Positive,
        Condition::Premium => Palette::Blue,
    }
}

/// The research question in a few words.
pub fn compact_research_question(level: ResearchLevel) -> (text: &'static str)
    ensures
        text@ == match level {
            ResearchLevel::StreetScan => "Rough value + demand?"@,
            ResearchLevel::AgentPack => "Hidden risks + value?"@,
            ResearchLevel::BuildingInspection => "Defects + repair room?"@,
            ResearchLevel::FullDiligence => "Final risk + walk-away?"@,
        },
{
    match level {
        ResearchLevel::StreetScan => "Rough value + demand?",
        ResearchLevel::AgentPack => "Hidden risks + value?",
        ResearchLevel::BuildingInspection => "Defects + repair room?",
        ResearchLevel::FullDiligence => "Final risk + walk-away?",
    }
}

/// The researched risk in a few words.
pub fn compact_risk_summary(property: &Property, level: ResearchLevel) -> (text: String)
    ensures
        text@ == match known_risk(*property, level) {
            KnownRisk::Unverified => "Risk unverified: judge the house."@,
            KnownRisk::Low => "Risk low: no material defect flagged."@,
            KnownRisk::Moderate => "Risk moderate: keep a repair buffer."@,
            KnownRisk::Elevated => "Risk elevated: protect the downside."@,
        },
{
    match known_risk_level(property, level) {
        KnownRisk::Unverified => String::from_str("Risk unverified: judge the house."),
        KnownRisk::Low => String::from_str("Risk low: no material defect flagged."),
        KnownRisk::Moderate => String::from_str("Risk moderate: keep a repair buffer."),
        KnownRisk::Elevated => String::from_str("Risk elevated: protect the downside."),
    }
}

/// Whether the research level fits the decision, in a few words.
pub fn compact_research_fit(level: ResearchLevel) -> (text: &'static str)
    ensures
        text@ == match level {
            ResearchLevel::StreetScan => "Gap: more evidence needed."@,
            ResearchLevel::AgentPack => "Gap: hidden risk remains."@,
            ResearchLevel::BuildingInspection => "Fit: inspect defects before bidding."@,
            ResearchLevel::FullDiligence => "Fit: final diligence applied."@,
        },
{
    match level {
        ResearchLevel::StreetScan => "Gap: more evidence needed.",
        ResearchLevel::AgentPack => "Gap: hidden risk remains.",
        ResearchLevel::BuildingInspection => "Fit: inspect defects before bidding.",
        ResearchLevel::FullDiligence => "Fit: final diligence applied.",
    }
}


/// One step down on the walk-away: $10,000 lower, but never more than
/// $80,000 under the guide.
pub fn lower_walkaway(price: i64, guide: i64) -> (p: i64)
    requires
        price >= i64::MIN + 10_000,
        guide >= i64::MIN + 80_000,
    ensures
        p == if price - 10_000 >= guide - 80_000 {
            price - 10_000
        } else {
            guide - 80_000
        },
{
    let lowered = price - 10_000;
    let floor = guide - 80_000;
    if lowered >= floor {
        lowered
    } else {
        floor
    }
}

/// One step up on the walk-away: $10,000 higher.
pub fn raise_walkaway(price: i64) -> (p: i64)
    requires
        price <= i64::MAX - 10_000,
    ensures
        p == price + 10_000,
{
    price + 10_000
}

/// Choosing a walk-away style resets the walk-away to the price recommended
/// for the style's buffer at the research bought and the player's reputation.
pub fn choose_style(
    property: &Property,
    market: &MarketRead,
    level: ResearchLevel,
    style_buffer: i64,
    reputation: i32,
) -> (p: i64)
    requires
        walkaway_target(*property, *market, level, style_buffer as int, reputation as int)
            <= i64::MAX,
        walkaway_price(*property, *market, level, style_buffer as int, reputation as int)
            >= i64::MIN,
    ensures
        p == walkaway_price(*property, *market, level, style_buffer as int, reputation as int),
{
    recommended_walkaway(property, market, level, style_buffer, reputation)
}

/// The register button either registers for the auction (a registration is
/// left this week) or sends the player back to recover.
pub fn register_or_recover(registrations: u8) -> (register: bool)
    ensures
        register == (registrations > 0),
{
    registrations > 0
}

/// The register button's label and emphasis.
pub fn register_button(registrations: u8) -> (button: (&'static str, ButtonTone))
    ensures
        registrations > 0 ==> button.0@ == "REGISTER TO BID"@ && button.1 == ButtonTone::Primary,
        registrations == 0 ==> button.0@ == "RECOVER"@ && button.1 == ButtonTone::Secondary,
{
    if registrations > 0 {
        ("REGISTER TO BID", ButtonTone::Primary)
    } else {
        ("RECOVER", ButtonTone::Secondary)
    }
}

/// How the walk-away figure is coloured: green while buying at the walk-away
/// still leaves a margin of zero or more, amber below that.
pub fn walkaway_tone(margin: i64) -> (color: Palette)
    ensures
        color == if margin >= 0 {
            Palette::Positive
        } else {
            Palette::Warning
        },
{
    if margin >= 0 {
        Palette::Positive
    } else {
        Palette::Warning
    }
}

/// Whether the player's cap is the suggested walk-away or a manual one.
pub fn cap_label(cap: i64, suggested: i64) -> (text: &'static str)
    ensures
        text@ == if cap == suggested {
            "Manual cap matches suggestion"@
        } else {
            "Manual cap · suggestion not applied"@
        },
{
    if cap == suggested {
        "Manual cap matches suggestion"
    } else {
        "Manual cap · suggestion not applied"
    }
}

/// Buys a deeper research level (its display name `level_label`, its list
/// price `level_cost`) on the listing `property`. A level no deeper than the
/// one bought changes nothing; a player short of the discounted price is told
/// what it costs; without the listing nothing changes. Otherwise the price is
/// paid, the walk-away is reset to the recommendation at the new level, and
/// the status says so. Returns whether the research was bought.
pub fn buy_research(
    cash: &mut i64,
    walkaway: &mut i64,
    status: &mut String,
    current: ResearchLevel,
    level: ResearchLevel,
    level_label: &str,
    level_cost: i64,
    reputation: i32,
    property: Option<&Property>,
    market: &MarketRead,
    style_buffer: i64,
) -> (bought: bool)
    requires
        level_cost >= 0,
        property matches Some(listing) ==> {
            &&& walkaway_target(*listing, *market, level, style_buffer as int, reputation as int)
                <= i64::MAX
            &&& walkaway_price(*listing, *market, level, style_buffer as int, reputation as int)
                >= i64::MIN
        },
    ensures
        ({
            let cost = research_price(level_cost as int, reputation as int);
            if level_rank(level) <= level_rank(current) {
                &&& !bought
                &&& *final(cash) == *old(cash)
                &&& *final(walkaway) == *old(walkaway)
                &&& final(status)@ == old(status)@
            } else if *old(cash) < cost {
                &&& !bought
                &&& *final(cash) == *old(cash)
                &&& *final(walkaway) == *old(walkaway)
                &&& final(status)@ == "Need "@ + money_text(cost) + " for "@ + level_label@ + "."@
            } else {
                match property {
                    None => {
                        &&& !bought
                        &&& *final(cash) == *old(cash)
                        &&& *final(walkaway) == *old(walkaway)
                        &&& final(status)@ == old(status)@
                    },
                    Some(listing) => {
                        &&& bought
                        &&& *final(cash) == *old(cash) - cost
                        &&& *final(walkaway) == walkaway_price(
                            *listing,
                            *market,
                            level,
                            style_buffer as int,
                            reputation as int,
                        )
                        &&& final(status)@ == level_label@ + " complete for "@ + listing.address@
                            + ". Walk-away updated to "@ + money_text(*final(walkaway) as int)
                            + "."@
                    },
                }
            }
        }),
{
    if level.rank() <= current.rank() {
        return false;
    }
    let cost = research_cost(level_cost, reputation);
    if *cash < cost {
        let mut text = String::from_str("Need ");
        let money = format_money(cost);
        text.append(money.as_str());
        text.append(" for ");
        text.append(level_label);
        text.append(".");
        *status = text;
        return false;
    }
    let listing = match property {
        Some(listing) => listing,
        None => return false,
    };
    *cash = *cash - cost;
    *walkaway = recommended_walkaway(listing, market, level, style_buffer, reputation);
    let mut text = String::from_str(level_label);
    text.append(" complete for ");
    text.append(listing.address.as_str());
    text.append(". Walk-away updated to ");
    let money = format_money(*walkaway);
    text.append(money.as_str());
    text.append(".");
    *status = text;
    true
}

} // verus!
